//! Expiry of a retrieved certificate: the not-after date is read out of the
//! PKCS#12 blob, and the distance to a reference time is computed in whole
//! days, negative once the date has passed.

use vstd::prelude::*;

verus! {

/// The not-after date of the certificate inside a PKCS#12 blob, as the
/// `(days, seconds)` offset from the Unix epoch that the decoder reports,
/// or nothing when the blob or password is wrong.  Both components carry
/// the same sign and the seconds stay below one day.
pub uninterp spec fn p12_not_after(der: Seq<u8>, pwd: Seq<char>) -> Option<(i32, i32)>;

/// Relies on `openssl`'s `Pkcs12::from_der`, `Pkcs12::parse2`,
/// `X509::not_after` and `Asn1TimeRef::diff`: reads the certificate of the
/// blob and measures its not-after date from the Unix epoch.  The result
/// depends on the blob and password alone.
#[verifier::external_body]
pub(crate) fn p12_expiry(der: &Vec<u8>, pwd: &str) -> (r: Option<(i32, i32)>)
    requires
        forall|i: int| 0 <= i < pwd@.len() ==> pwd@[i] != '\u{0}',
    ensures
        r == p12_not_after(der@, pwd@),
{
    let p12 = openssl::pkcs12::Pkcs12::from_der(der.as_slice()).ok()?;
    let parsed = p12.parse2(pwd).ok()?;
    let cert = parsed.cert?;
    let epoch = openssl::asn1::Asn1Time::from_unix(0).ok()?;
    let diff = epoch.diff(cert.not_after()).ok()?;
    Some((diff.days, diff.secs))
}

/// The number of whole days from `now` until `exp` (both in seconds):
/// the greatest `d` with `now + 86400 * d <= exp`.  Negative once `exp`
/// lies in the past.
pub fn days_until(now: i64, exp: i64) -> (r: i64)
    requires
        -0x2000_0000_0000_0000 < now < 0x2000_0000_0000_0000,
        -0x2000_0000_0000_0000 < exp < 0x2000_0000_0000_0000,
    ensures
        86400 * r <= exp - now < 86400 * (r + 1),
        exp < now ==> r < 0,
        exp >= now ==> r >= 0,
{
    if exp >= now {
        let d: u64 = (exp - now) as u64;
        let q: u64 = d / 86400;
        proof {
            vstd::arithmetic::div_mod::lemma_fundamental_div_mod(d as int, 86400);
        }
        q as i64
    } else {
        let d: u64 = (now - exp) as u64;
        let q: u64 = (d + 86399) / 86400;
        proof {
            vstd::arithmetic::div_mod::lemma_fundamental_div_mod(d as int + 86399, 86400);
        }
        let r: i64 = -(q as i64);
        r
    }
}

} // verus!
