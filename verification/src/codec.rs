//! Decoding of the base64 certificate data the platform returns.

use vstd::prelude::*;
use base64::Engine;

verus! {

/// What standard base64 decoding yields for a text: the decoded bytes, or
/// nothing when the text is not valid base64.
pub uninterp spec fn b64_decoded(s: Seq<char>) -> Option<Seq<u8>>;

/// Relies on `base64`'s standard-alphabet engine: decodes the text, or
/// reports that it is malformed.  The result depends on the text alone.
#[verifier::external_body]
pub(crate) fn decode_base64(s: &str) -> (r: Option<Vec<u8>>)
    ensures
        match r {
            Some(v) => b64_decoded(s@) == Some(v@),
            None => b64_decoded(s@) is None,
        },
{
    base64::engine::general_purpose::STANDARD.decode(s).ok()
}

} // verus!
