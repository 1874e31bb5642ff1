//! Utility helpers: hostname validation and the random password that
//! encrypts a retrieved private key.

use vstd::prelude::*;
use crate::json::push_char;

verus! {

/// A character allowed inside a hostname label: a letter, a digit, a
/// hyphen or an underscore.
pub open spec fn is_host_char(c: char) -> bool {
    (97 <= c as u32 <= 122)  // 'a'..'z'
    || (65 <= c as u32 <= 90)  // 'A'..'Z'
    || (48 <= c as u32 <= 57)  // '0'..'9'
    || c == '-'
    || c == '_'
}

/// A well-formed hostname: non-empty, made of labels of letters, digits,
/// hyphens and underscores separated by single dots, not starting with a
/// dot (a trailing dot is allowed).
pub open spec fn spec_valid_hostname(s: Seq<char>) -> bool {
    &&& s.len() > 0
    &&& is_host_char(s[0])
    &&& forall|i: int| 0 <= i < s.len() ==> is_host_char(s[i]) || s[i] == '.'
    &&& forall|i: int| 0 < i < s.len() ==> !(s[i - 1] == '.' && (#[trigger] s[i]) == '.')
}

fn host_char(c: char) -> (r: bool)
    ensures
        r == is_host_char(c),
{
    let v = c as u32;
    (97 <= v && v <= 122) || (65 <= v && v <= 90) || (48 <= v && v <= 57) || c == '-' || c == '_'
}

/// Decides whether `name` is a well-formed hostname.
pub fn validate_hostname(name: &str) -> (r: bool)
    ensures
        r == spec_valid_hostname(name@),
{
    let n = name.unicode_len();
    if n == 0 {
        return false;
    }
    let mut i: usize = 0;
    let mut prev_dot: bool = false;
    while i < n
        invariant
            0 < n == name@.len(),
            i <= n,
            i > 0 ==> is_host_char(name@[0]),
            forall|j: int| 0 <= j < i ==> is_host_char(name@[j]) || name@[j] == '.',
            forall|j: int| 0 < j < i ==> !(name@[j - 1] == '.' && (#[trigger] name@[j]) == '.'),
            prev_dot == (i > 0 && name@[i - 1] == '.'),
        decreases n - i,
    {
        let c = name.get_char(i);
        if c == '.' {
            if i == 0 || prev_dot {
                assert(!spec_valid_hostname(name@));
                return false;
            }
            prev_dot = true;
        } else {
            if !host_char(c) {
                assert(!(is_host_char(name@[i as int]) || name@[i as int] == '.'));
                assert(!spec_valid_hostname(name@));
                return false;
            }
            prev_dot = false;
        }
        i += 1;
    }
    true
}

/// Relies on `rand::random`: draws a value of the standard distribution;
/// nothing is assumed of which value comes back.
pub assume_specification<T>[ rand::random::<T> ]() -> (r: T)
    where
        rand::distr::StandardUniform: rand::distr::Distribution<T>,
;

/// Generates a 30-character password of printable ASCII, used to encrypt
/// the private key of a retrieved certificate.
pub fn generate_pass() -> (r: String)
    ensures
        r@.len() == 30,
        forall|i: int| 0 <= i < 30 ==> 32 <= #[trigger] (r@[i] as u32) <= 127,
{
    let mut s = String::new();
    let mut i: usize = 0;
    while i < 30
        invariant
            i <= 30,
            s@.len() == i,
            forall|j: int| 0 <= j < i ==> 32 <= #[trigger] (s@[j] as u32) <= 127,
        decreases 30 - i,
    {
        let b: u8 = rand::random::<u8>();
        let v: u8 = 32 + b % 96;
        let c: char = v as char;
        push_char(&mut s, c);
        i += 1;
    }
    s
}

} // verus!
