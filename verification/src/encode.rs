//! Text encodings: JSON string literals (from `serde_json`), percent-encoding
//! and the collapsing of line breaks.

use vstd::prelude::*;
use crate::text::{chars_of, push_char};

verus! {

/// The JSON string literal that `serde_json` writes for `s` (quotes and
/// escapes included).
pub uninterp spec fn json_string(s: Seq<char>) -> Seq<char>;

/// `serde_json::to_string` of a string: its JSON string literal.
#[verifier::external_body]
pub(crate) fn json_quote(s: &str) -> (r: String)
    ensures
        r@ == json_string(s@),
{
    serde_json::to_string(s).unwrap_or_default()
}

/// Whether a byte is left as it is by percent-encoding: an ASCII letter or
/// digit, `-`, `.`, `_` or `~`.
pub open spec fn is_unreserved(b: u8) -> bool {
    // `0`-`9`, `A`-`Z`, `a`-`z`, `-`, `.`, `_`, `~` by their byte values.
    (48 <= b <= 57) || (65 <= b <= 90) || (97 <= b <= 122) || b == 45 || b == 46 || b == 95 || b == 126
}

/// The upper-case hexadecimal digit for `d` (below 16).
pub open spec fn hex_digit(d: u8) -> char {
    if d < 10 { (48 + d) as char } else { (55 + d) as char }
}

/// The percent-encoding of bytes: each unreserved byte as its character,
/// any other as `%` and two upper-case hexadecimal digits.
pub open spec fn percent_bytes(b: Seq<u8>) -> Seq<char>
    decreases b.len(),
{
    if b.len() == 0 {
        Seq::empty()
    } else {
        let x = b.last();
        percent_bytes(b.drop_last()) + if is_unreserved(x) {
            seq![x as char]
        } else {
            seq!['%', hex_digit(x / 16), hex_digit(x % 16)]
        }
    }
}

/// The percent-encoding of the UTF-8 bytes of `s`, as `urlencoding::encode`
/// produces it.
pub open spec fn percent_encoded(s: Seq<char>) -> Seq<char> {
    percent_bytes(vstd::utf8::encode_utf8(s))
}

/// The upper-case hexadecimal digit for `d` (below 16).
fn hex_char(d: u8) -> (c: char)
    requires
        d < 16,
    ensures
        c == hex_digit(d),
{
    if d < 10 {
        (48 + d) as char
    } else {
        (55 + d) as char
    }
}

/// Percent-encodes the UTF-8 bytes of `s` (see `percent_bytes`), as
/// `urlencoding::encode` does.
pub fn url_encode(s: &str) -> (r: String)
    ensures
        r@ == percent_encoded(s@),
{
    let bytes = s.as_bytes();
    let mut r = String::new();
    let mut i: usize = 0;
    while i < bytes.len()
        invariant
            bytes@ == vstd::utf8::encode_utf8(s@),
            i <= bytes@.len(),
            r@ == percent_bytes(bytes@.take(i as int)),
        decreases bytes@.len() - i,
    {
        let b = bytes[i];
        assert(bytes@.take(i + 1).drop_last() =~= bytes@.take(i as int));
        assert(bytes@.take(i + 1).last() == b);
        let unreserved = (48 <= b && b <= 57) || (65 <= b && b <= 90) || (97 <= b && b <= 122) || b == 45 || b == 46
            || b == 95 || b == 126;
        if unreserved {
            push_char(&mut r, b as char);
        } else {
            push_char(&mut r, '%');
            push_char(&mut r, hex_char(b / 16));
            push_char(&mut r, hex_char(b % 16));
        }
        i = i + 1;
    }
    assert(bytes@.take(bytes@.len() as int) =~= bytes@);
    r
}

/// Whether `c` is a line break character.
pub open spec fn is_line_break(c: char) -> bool {
    c == '\n' || c == '\r'
}

/// `s` with every maximal run of `\n` and `\r` characters replaced by one
/// space, as the regex `[\n\r]+` replaces it.
pub open spec fn newline_runs_to_space(s: Seq<char>) -> Seq<char>
    decreases s.len(),
{
    if s.len() == 0 {
        Seq::empty()
    } else {
        let prev = newline_runs_to_space(s.drop_last());
        if !is_line_break(s.last()) {
            prev.push(s.last())
        } else if s.len() >= 2 && is_line_break(s[s.len() - 2]) {
            prev
        } else {
            prev.push(' ')
        }
    }
}

/// Replaces every run of line breaks in `s` by one space (see
/// `newline_runs_to_space`).
pub fn collapse_newlines(s: &str) -> (r: String)
    ensures
        r@ == newline_runs_to_space(s@),
{
    let v = chars_of(s);
    let mut r = String::new();
    let mut i: usize = 0;
    while i < v.len()
        invariant
            v@ == s@,
            i <= v@.len(),
            r@ == newline_runs_to_space(v@.take(i as int)),
        decreases v@.len() - i,
    {
        let c = v[i];
        let ghost t = v@.take(i + 1);
        assert(t.drop_last() =~= v@.take(i as int));
        assert(t.last() == c);
        let line_break = c == '\n' || c == '\r';
        if !line_break {
            push_char(&mut r, c);
        } else if i >= 1 && (v[i - 1] == '\n' || v[i - 1] == '\r') {
            assert(t[t.len() - 2] == v@[i - 1]);
        } else {
            push_char(&mut r, ' ');
        }
        i = i + 1;
    }
    assert(v@.take(v@.len() as int) =~= v@);
    r
}

} // verus!
