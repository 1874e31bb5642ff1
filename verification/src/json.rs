//! JSON emission for the vendor API payloads.
//!
//! The platform fixes every field name of its JSON bodies, so the library
//! emits the payload text itself.  `json_escape` is the specification of the
//! string-escaping rules; every payload builder's contract is stated as a
//! concatenation of literals and escaped inputs.

use vstd::prelude::*;

verus! {

/// One hexadecimal digit, lower case.
pub open spec fn hex_digit(n: int) -> char {
    if n == 0 { '0' } else if n == 1 { '1' } else if n == 2 { '2' }
    else if n == 3 { '3' } else if n == 4 { '4' } else if n == 5 { '5' }
    else if n == 6 { '6' } else if n == 7 { '7' } else if n == 8 { '8' }
    else if n == 9 { '9' } else if n == 10 { 'a' } else if n == 11 { 'b' }
    else if n == 12 { 'c' } else if n == 13 { 'd' } else if n == 14 { 'e' }
    else { 'f' }
}

/// The escape sequence a character contributes inside a JSON string:
/// quote and backslash get a backslash escape, the common whitespace
/// controls get their short forms, the remaining control characters get a
/// `\u00XX` escape, and everything else stands as itself.
pub open spec fn esc_char(c: char) -> Seq<char> {
    if c == '"' { seq!['\\', '"'] }
    else if c == '\\' { seq!['\\', '\\'] }
    else if c == '\n' { seq!['\\', 'n'] }
    else if c == '\r' { seq!['\\', 'r'] }
    else if c == '\t' { seq!['\\', 't'] }
    else if (c as u32) < 32 {
        seq!['\\', 'u', '0', '0', hex_digit(c as u32 as int / 16), hex_digit(c as u32 as int % 16)]
    }
    else { seq![c] }
}

/// The body of a JSON string: every character replaced by its escape
/// sequence.
pub open spec fn json_escape(s: Seq<char>) -> Seq<char>
    decreases s.len(),
{
    if s.len() == 0 {
        Seq::<char>::empty()
    } else {
        esc_char(s[0]) + json_escape(s.drop_first())
    }
}

/// A complete JSON string literal: the escaped body between quotes.
pub open spec fn json_str(s: Seq<char>) -> Seq<char> {
    seq!['"'] + json_escape(s) + seq!['"']
}

pub proof fn lemma_json_escape_concat(a: Seq<char>, b: Seq<char>)
    ensures
        json_escape(a + b) == json_escape(a) + json_escape(b),
    decreases a.len(),
{
    if a.len() == 0 {
        assert(a + b =~= b);
        assert(json_escape(a) + json_escape(b) =~= json_escape(b));
    } else {
        assert((a + b).drop_first() =~= a.drop_first() + b);
        lemma_json_escape_concat(a.drop_first(), b);
        assert(json_escape(a + b) =~= json_escape(a) + json_escape(b));
    }
}

pub proof fn lemma_json_escape_snoc(s: Seq<char>, i: int)
    requires
        0 <= i < s.len(),
    ensures
        json_escape(s.take(i + 1)) == json_escape(s.take(i)) + esc_char(s[i]),
{
    let single = seq![s[i]];
    assert(s.take(i + 1) =~= s.take(i) + single);
    lemma_json_escape_concat(s.take(i), single);
    assert(single.len() == 1 && single[0] == s[i]);
    assert(single.drop_first() =~= Seq::<char>::empty());
    assert(json_escape(Seq::<char>::empty()) == Seq::<char>::empty());
    assert(esc_char(s[i]) + Seq::<char>::empty() =~= esc_char(s[i]));
    assert(json_escape(single) =~= esc_char(s[i]));
}

/// What follows the first element of a comma-separated list: a comma
/// before each remaining part.
pub open spec fn spec_join_rest(parts: Seq<Seq<char>>) -> Seq<char>
    decreases parts.len(),
{
    if parts.len() == 0 {
        Seq::<char>::empty()
    } else {
        seq![','] + parts[0] + spec_join_rest(parts.drop_first())
    }
}

/// The parts joined by commas, as between the brackets of a JSON array.
pub open spec fn spec_join_comma(parts: Seq<Seq<char>>) -> Seq<char> {
    if parts.len() == 0 {
        Seq::<char>::empty()
    } else {
        parts[0] + spec_join_rest(parts.drop_first())
    }
}

pub proof fn lemma_join_rest_concat(a: Seq<Seq<char>>, b: Seq<Seq<char>>)
    ensures
        spec_join_rest(a + b) == spec_join_rest(a) + spec_join_rest(b),
    decreases a.len(),
{
    if a.len() == 0 {
        assert(a + b =~= b);
        assert(spec_join_rest(a) + spec_join_rest(b) =~= spec_join_rest(b));
    } else {
        assert((a + b).drop_first() =~= a.drop_first() + b);
        lemma_join_rest_concat(a.drop_first(), b);
        assert(spec_join_rest(a + b) =~= spec_join_rest(a) + spec_join_rest(b));
    }
}

/// Extending a joined list by one part appends the part, preceded by a
/// comma unless it is the first.
pub proof fn lemma_join_snoc(parts: Seq<Seq<char>>, i: int)
    requires
        0 <= i < parts.len(),
    ensures
        spec_join_comma(parts.take(i + 1)) == spec_join_comma(parts.take(i)) + (if i == 0 {
            parts[i]
        } else {
            seq![','] + parts[i]
        }),
{
    let single = seq![parts[i]];
    assert(single.drop_first() =~= Seq::<Seq<char>>::empty());
    assert(parts.take(i + 1) =~= parts.take(i) + single);
    if i == 0 {
        assert(parts.take(0) =~= Seq::<Seq<char>>::empty());
        assert(spec_join_comma(parts.take(1)) =~= parts[0]);
        assert(spec_join_comma(parts.take(0)) + parts[0] =~= parts[0]);
    } else {
        let a = parts.take(i);
        assert((a + single).drop_first() =~= a.drop_first() + single);
        lemma_join_rest_concat(a.drop_first(), single);
        assert(spec_join_rest(Seq::<Seq<char>>::empty()) == Seq::<char>::empty());
        assert(spec_join_rest(single) =~= seq![','] + parts[i]);
        assert(spec_join_comma(parts.take(i + 1)) =~= spec_join_comma(parts.take(i)) + (seq![','] + parts[i]));
    }
}

/// Relies on std's `String::push`: appends exactly the given character.
#[verifier::external_body]
pub(crate) fn push_char(out: &mut String, c: char)
    ensures
        final(out)@ == old(out)@ + seq![c],
{
    out.push(c)
}

/// Appends the lower-case hexadecimal digit for `n`.
fn push_hex_digit(out: &mut String, n: u32)
    requires
        n < 16,
    ensures
        final(out)@ == old(out)@ + seq![hex_digit(n as int)],
{
    let c: char = if n == 0 { '0' } else if n == 1 { '1' } else if n == 2 { '2' }
        else if n == 3 { '3' } else if n == 4 { '4' } else if n == 5 { '5' }
        else if n == 6 { '6' } else if n == 7 { '7' } else if n == 8 { '8' }
        else if n == 9 { '9' } else if n == 10 { 'a' } else if n == 11 { 'b' }
        else if n == 12 { 'c' } else if n == 13 { 'd' } else if n == 14 { 'e' }
        else { 'f' };
    push_char(out, c);
}

/// Appends the escape sequence of one character.
fn push_escaped_char(out: &mut String, c: char)
    ensures
        final(out)@ == old(out)@ + esc_char(c),
{
    if c == '"' {
        push_char(out, '\\');
        push_char(out, '"');
    } else if c == '\\' {
        push_char(out, '\\');
        push_char(out, '\\');
    } else if c == '\n' {
        push_char(out, '\\');
        push_char(out, 'n');
    } else if c == '\r' {
        push_char(out, '\\');
        push_char(out, 'r');
    } else if c == '\t' {
        push_char(out, '\\');
        push_char(out, 't');
    } else if (c as u32) < 32 {
        let v: u32 = c as u32;
        push_char(out, '\\');
        push_char(out, 'u');
        push_char(out, '0');
        push_char(out, '0');
        push_hex_digit(out, v / 16);
        push_hex_digit(out, v % 16);
        assert(final(out)@ =~= old(out)@ + esc_char(c));
    } else {
        push_char(out, c);
    }
    assert(final(out)@ =~= old(out)@ + esc_char(c));
}

/// Appends the escaped body of `s`.
pub fn push_json_escape(out: &mut String, s: &str)
    ensures
        final(out)@ == old(out)@ + json_escape(s@),
{
    let n = s.unicode_len();
    let mut i: usize = 0;
    while i < n
        invariant
            i <= n,
            n == s@.len(),
            out@ == old(out)@ + json_escape(s@.take(i as int)),
        decreases n - i,
    {
        let c = s.get_char(i);
        push_escaped_char(out, c);
        proof {
            lemma_json_escape_snoc(s@, i as int);
        }
        i += 1;
    }
    proof {
        assert(s@.take(n as int) =~= s@);
    }
}

/// Appends the complete JSON string literal for `s`.
pub fn push_json_str(out: &mut String, s: &str)
    ensures
        final(out)@ == old(out)@ + json_str(s@),
{
    push_char(out, '"');
    push_json_escape(out, s);
    push_char(out, '"');
    assert(final(out)@ =~= old(out)@ + json_str(s@));
}

} // verus!
