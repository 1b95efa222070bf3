//! JSON text for strings and integers, produced by serde_json.

use vstd::prelude::*;

verus! {

/// Lower-case hexadecimal digit of a value below sixteen.
pub open spec fn hex_digit(d: int) -> char {
    if d < 10 {
        crate::text::digit_char(d as nat)
    } else if d == 10 { 'a' } else if d == 11 { 'b' } else if d == 12 { 'c' }
    else if d == 13 { 'd' } else if d == 14 { 'e' } else { 'f' }
}

/// How serde_json writes one character inside a JSON string literal:
/// quote and backslash are escaped, the control characters below U+0020
/// use their short escape where JSON has one and `\u00XX` otherwise, and
/// every other character is written as it is.
pub open spec fn json_escape_char(c: char) -> Seq<char> {
    if c == '"' {
        seq!['\\', '"']
    } else if c == '\\' {
        seq!['\\', '\\']
    } else if c == '\u{8}' {
        seq!['\\', 'b']
    } else if c == '\t' {
        seq!['\\', 't']
    } else if c == '\n' {
        seq!['\\', 'n']
    } else if c == '\u{c}' {
        seq!['\\', 'f']
    } else if c == '\r' {
        seq!['\\', 'r']
    } else if (c as int) < 0x20 {
        seq!['\\', 'u', '0', '0', hex_digit((c as int) / 16), hex_digit((c as int) % 16)]
    } else {
        seq![c]
    }
}

/// The escaped body of a JSON string literal.
pub open spec fn json_escaped(s: Seq<char>) -> Seq<char>
    decreases s.len(),
{
    if s.len() == 0 {
        Seq::empty()
    } else {
        json_escaped(s.drop_last()) + json_escape_char(s.last())
    }
}

/// A complete JSON string literal for the text `s`.
pub open spec fn json_quoted(s: Seq<char>) -> Seq<char> {
    seq!['"'] + json_escaped(s) + seq!['"']
}

/// `serde_json::to_string` on a `&str`: the JSON string literal for `s`.
/// The contract restates serde_json's escape table (`ESCAPE` and
/// `write_char_escape` in its `ser.rs`); serializing a string never fails.
#[verifier::external_body]
pub fn json_string(s: &str) -> (r: String)
    ensures
        r@ == json_quoted(s@),
{
    serde_json::to_string(s).unwrap_or_default()
}

/// `serde_json::to_string` on an `i64`: its decimal text, with a leading
/// minus sign when negative (serde_json writes integers with `itoa`).
#[verifier::external_body]
pub fn json_int(n: i64) -> (r: String)
    ensures
        r@ == crate::text::int_decimal(n as int),
{
    serde_json::to_string(&n).unwrap_or_default()
}


/// No raw control character, and every `"` directly follows a backslash.
pub open spec fn escaped_body(t: Seq<char>) -> bool {
    &&& forall|i: int| 0 <= i < t.len() ==> (#[trigger] t[i] as int) >= 0x20
    &&& forall|i: int| 0 <= i < t.len() && #[trigger] t[i] == '"' ==> i > 0 && t[i - 1] == '\\'
}

proof fn lemma_json_escaped_body(s: Seq<char>)
    ensures
        escaped_body(json_escaped(s)),
    decreases s.len(),
{
    if s.len() > 0 {
        lemma_json_escaped_body(s.drop_last());
        let a = json_escaped(s.drop_last());
        let b = json_escape_char(s.last());
        let r = json_escaped(s);
        assert(r == a + b);
        assert(escaped_body(b));
        assert forall|i: int| 0 <= i < r.len() implies (#[trigger] r[i] as int) >= 0x20 by {
            if i < a.len() {
                assert(r[i] == a[i]);
            } else {
                assert(r[i] == b[i - a.len()]);
            }
        }
        assert forall|i: int| 0 <= i < r.len() && #[trigger] r[i] == '"' implies i > 0 && r[i - 1]
            == '\\' by {
            if i < a.len() {
                assert(r[i] == a[i]);
                assert(r[i - 1] == a[i - 1]);
            } else {
                assert(r[i] == b[i - a.len()]);
                assert(b.len() == 2 && b[0] == '\\');
                assert(r[i - 1] == b[i - 1 - a.len()]);
            }
        }
    }
}

/// serde_json's string literals are well formed: they open and close with
/// a quote, hold no raw control character, and every quote in between is
/// escaped by the backslash before it.
pub proof fn lemma_json_quoted_well_formed(s: Seq<char>)
    ensures
        json_quoted(s).len() >= 2,
        json_quoted(s)[0] == '"',
        json_quoted(s).last() == '"',
        escaped_body(json_quoted(s).subrange(1, json_quoted(s).len() - 1)),
{
    lemma_json_escaped_body(s);
    let q = json_quoted(s);
    assert(q.subrange(1, q.len() - 1) =~= json_escaped(s));
}

} // verus!
