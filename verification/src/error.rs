//! Error type shared by every operation of the library.

use vstd::prelude::*;

verus! {

/// Why an operation failed.
///
/// `Api` carries the exact HTTP status code and response body of a non-2xx
/// answer, so callers keep the full diagnostic context.
#[derive(Debug)]
pub enum VenafiError {
    /// The transport could not complete the exchange; carries its message.
    Transport(String),
    /// An operation was invoked before authentication stored an API key.
    Unauthenticated,
    /// A certificate-authority or folder name is not present in the
    /// configuration; carries the name that failed to resolve.
    ConfigResolution(String),
    /// The server answered outside the 2xx range.
    Api { status: u16, body: String },
    /// The response was missing an expected field or held malformed base64.
    Decode,
    /// The retrieved PKCS#12 blob or its date field could not be parsed.
    CertificateParse,
}

impl VenafiError {
    /// A short description of the error, for callers that log or print.
    pub fn message(&self) -> (r: String)
        ensures
            match self {
                VenafiError::Transport(m) => r@ == "transport failure: "@ + m@,
                VenafiError::Unauthenticated => r@ == "not authenticated"@,
                VenafiError::ConfigResolution(n) => r@ == "unknown CA or folder name: "@ + n@,
                VenafiError::Api { status: _, body } => r@ == "API error: "@ + body@,
                VenafiError::Decode => r@ == "malformed response payload"@,
                VenafiError::CertificateParse => r@ == "malformed certificate data"@,
            },
    {
        match self {
            VenafiError::Transport(m) => {
                let mut s = String::from_str("transport failure: ");
                s.append(m.as_str());
                s
            },
            VenafiError::Unauthenticated => String::from_str("not authenticated"),
            VenafiError::ConfigResolution(name) => {
                let mut s = String::from_str("unknown CA or folder name: ");
                s.append(name.as_str());
                s
            },
            VenafiError::Api { status: _, body } => {
                let mut s = String::from_str("API error: ");
                s.append(body.as_str());
                s
            },
            VenafiError::Decode => String::from_str("malformed response payload"),
            VenafiError::CertificateParse => String::from_str("malformed certificate data"),
        }
    }
}

} // verus!
