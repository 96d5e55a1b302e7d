//! Character-level text helpers: white space, trimming, UTF-8 decoding and
//! upper-case hexadecimal digits.

use vstd::prelude::*;
use vstd::utf8::*;

verus! {

/// The Unicode `White_Space` property: the characters that trimming removes.
pub open spec fn is_white_space(c: char) -> bool {
    let u = c as u32;
    ||| 0x09 <= u <= 0x0D
    ||| u == 0x20
    ||| u == 0x85
    ||| u == 0xA0
    ||| u == 0x1680
    ||| 0x2000 <= u <= 0x200A
    ||| u == 0x2028
    ||| u == 0x2029
    ||| u == 0x202F
    ||| u == 0x205F
    ||| u == 0x3000
}

/// `s` without its leading white space.
pub open spec fn trim_start_chars(s: Seq<char>) -> Seq<char>
    decreases s.len(),
{
    if s.len() > 0 && is_white_space(s[0]) {
        trim_start_chars(s.drop_first())
    } else {
        s
    }
}

/// `s` without its trailing white space.
pub open spec fn trim_end_chars(s: Seq<char>) -> Seq<char>
    decreases s.len(),
{
    if s.len() > 0 && is_white_space(s.last()) {
        trim_end_chars(s.drop_last())
    } else {
        s
    }
}

/// `s` without leading and trailing white space.
pub open spec fn trim_chars(s: Seq<char>) -> Seq<char> {
    trim_end_chars(trim_start_chars(s))
}

/// The text that a byte sequence holds: its UTF-8 decoding when it is valid
/// UTF-8, and the empty text otherwise.
pub open spec fn text_from_bytes(bytes: Seq<u8>) -> Seq<char> {
    if valid_utf8(bytes) {
        decode_utf8(bytes)
    } else {
        Seq::empty()
    }
}

/// The upper-case hexadecimal digit for `n` (`0 <= n < 16`).
pub open spec fn hex_digit(n: int) -> char {
    if n < 10 {
        (n + 48) as char
    } else {
        (n + 55) as char
    }
}

/// The four upper-case hexadecimal digits of `v`, zero-padded.
pub open spec fn hex4(v: u16) -> Seq<char> {
    seq![
        hex_digit((v / 4096) as int),
        hex_digit(((v / 256) % 16) as int),
        hex_digit(((v / 16) % 16) as int),
        hex_digit((v % 16) as int),
    ]
}

/// The value of an upper-case hexadecimal digit.
pub open spec fn hex_digit_value(c: char) -> int {
    if '0' <= c <= '9' {
        c as int - 48
    } else {
        c as int - 55
    }
}

/// The value of a text of four hexadecimal digits.
pub open spec fn hex4_value(s: Seq<char>) -> int {
    4096 * hex_digit_value(s[0]) + 256 * hex_digit_value(s[1]) + 16 * hex_digit_value(s[2])
        + hex_digit_value(s[3])
}

/// `str::trim`: the slice without leading and trailing characters of the
/// Unicode `White_Space` property.
#[verifier::external_body]
pub(crate) fn trim_str(s: &str) -> (res: &str)
    ensures
        res@ == trim_chars(s@),
{
    s.trim()
}

/// `String::push`: appends one character.
#[verifier::external_body]
pub(crate) fn push_char(s: &mut String, c: char)
    ensures
        final(s)@ == old(s)@.push(c),
{
    s.push(c)
}

/// `String::from_utf8`: the bytes as a `String` when they are valid UTF-8,
/// and `None` when they are not.
#[verifier::external_body]
pub(crate) fn string_from_utf8(bytes: Vec<u8>) -> (res: Option<String>)
    ensures
        res is Some <==> valid_utf8(bytes@),
        res matches Some(s) ==> s@ == decode_utf8(bytes@),
{
    String::from_utf8(bytes).ok()
}

/// The text that `bytes` holds: their UTF-8 decoding, or the empty text
/// when they are not valid UTF-8.
pub fn text_from_utf8(bytes: Vec<u8>) -> (res: String)
    ensures
        res@ == text_from_bytes(bytes@),
{
    match string_from_utf8(bytes) {
        Some(s) => s,
        None => String::new(),
    }
}

/// The upper-case hexadecimal digit for `n`.
pub fn hex_digit_char(n: u16) -> (c: char)
    requires
        n < 16,
    ensures
        c == hex_digit(n as int),
{
    let b: u8 = n as u8;
    if b < 10 {
        (b + 48) as char
    } else {
        (b + 55) as char
    }
}

/// Appends the four zero-padded upper-case hexadecimal digits of `v`.
pub fn push_hex4(s: &mut String, v: u16)
    ensures
        final(s)@ == old(s)@ + hex4(v),
{
    push_char(s, hex_digit_char(v / 4096));
    push_char(s, hex_digit_char((v / 256) % 16));
    push_char(s, hex_digit_char((v / 16) % 16));
    push_char(s, hex_digit_char(v % 16));
    assert(s@ =~= old(s)@ + hex4(v));
}

/// Every digit of `hex4(v)` is one of `0`-`9`, `A`-`F`, and the four digits
/// read back as `v`: the text identifies the number.
pub proof fn lemma_hex4_reads_back(v: u16)
    ensures
        hex4(v).len() == 4,
        forall|i: int|
            0 <= i < 4 ==> ('0' <= #[trigger] hex4(v)[i] <= '9' || 'A' <= hex4(v)[i] <= 'F'),
        hex4_value(hex4(v)) == v,
{
    let a = v / 4096;
    let b = (v / 256) % 16;
    let c = (v / 16) % 16;
    let d = v % 16;
    assert(v == 4096 * a + 256 * b + 16 * c + d) by (nonlinear_arith)
        requires
            a == v / 4096,
            b == (v / 256) % 16,
            c == (v / 16) % 16,
            d == v % 16,
            0 <= v < 65536,
    ;
    assert(0 <= a < 16) by (nonlinear_arith)
        requires
            a == v / 4096,
            0 <= v < 65536,
    ;
}

} // verus!
