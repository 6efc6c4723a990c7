//! Hexadecimal text for byte strings: two digits per byte, high digit first.
//! Text that is written is lower case; text that is read may be either case.

use vstd::prelude::*;

verus! {

/// Whether `c` is one of `0-9`, `a-f`, `A-F`.
pub open spec fn is_hex_digit(c: char) -> bool {
    ('0' <= c && c <= '9') || ('a' <= c && c <= 'f') || ('A' <= c && c <= 'F')
}

/// The number that a hex digit stands for.
pub open spec fn hex_digit_value(c: char) -> int {
    if '0' <= c && c <= '9' {
        c as int - '0' as int
    } else if 'a' <= c && c <= 'f' {
        c as int - 'a' as int + 10
    } else {
        c as int - 'A' as int + 10
    }
}

/// The lower-case hex digit for a number below 16.
pub open spec fn hex_digit(v: int) -> char {
    if v < 10 {
        ('0' as int + v) as char
    } else {
        ('a' as int + v - 10) as char
    }
}

/// Whether `s` is hex text for a byte string: an even number of hex digits.
pub open spec fn is_hex(s: Seq<char>) -> bool {
    s.len() % 2 == 0 && forall|i: int| 0 <= i < s.len() ==> is_hex_digit(#[trigger] s[i])
}

/// The byte string that hex text stands for.
pub open spec fn hex_bytes(s: Seq<char>) -> Seq<u8> {
    Seq::new(
        s.len() / 2,
        |i: int| (16 * hex_digit_value(s[2 * i]) + hex_digit_value(s[2 * i + 1])) as u8,
    )
}

/// The lower-case hex text of a byte string.
pub open spec fn hex_string(bytes: Seq<u8>) -> Seq<char> {
    Seq::new(
        2 * bytes.len(),
        |i: int|
            if i % 2 == 0 {
                hex_digit(bytes[i / 2] as int / 16)
            } else {
                hex_digit(bytes[i / 2] as int % 16)
            },
    )
}

/// Reading back what was written gives the same bytes.
pub proof fn lemma_hex_round_trip(bytes: Seq<u8>)
    ensures
        is_hex(hex_string(bytes)),
        hex_bytes(hex_string(bytes)) == bytes,
        hex_string(bytes).len() == 2 * bytes.len(),
{
    let s = hex_string(bytes);
    assert forall|i: int| 0 <= i < s.len() implies is_hex_digit(#[trigger] s[i]) by {
        let b = bytes[i / 2] as int;
        assert(0 <= b / 16 < 16);
        assert(0 <= b % 16 < 16);
    }
    assert forall|i: int| 0 <= i < bytes.len() implies hex_bytes(s)[i] == bytes[i] by {
        let b = bytes[i] as int;
        assert((2 * i) / 2 == i);
        assert((2 * i + 1) / 2 == i);
        assert((2 * i) % 2 == 0);
        assert((2 * i + 1) % 2 == 1);
        assert(0 <= b / 16 < 16);
        assert(0 <= b % 16 < 16);
        assert(hex_digit_value(hex_digit(b / 16)) == b / 16);
        assert(hex_digit_value(hex_digit(b % 16)) == b % 16);
        assert(16 * (b / 16) + b % 16 == b);
    }
    assert(hex_bytes(s) =~= bytes);
}

/// Hex text after hex text is hex text, and stands for the bytes of the first
/// followed by the bytes of the second.
pub proof fn lemma_hex_concat(a: Seq<char>, b: Seq<char>)
    requires
        is_hex(a),
        is_hex(b),
    ensures
        is_hex(a + b),
        hex_bytes(a + b) == hex_bytes(a) + hex_bytes(b),
{
    let ab = a + b;
    assert forall|i: int| 0 <= i < ab.len() implies is_hex_digit(#[trigger] ab[i]) by {
        if i < a.len() {
            assert(ab[i] == a[i]);
        } else {
            assert(ab[i] == b[i - a.len()]);
        }
    }
    let left = hex_bytes(ab);
    let right = hex_bytes(a) + hex_bytes(b);
    assert(left.len() == right.len());
    assert forall|i: int| 0 <= i < left.len() implies left[i] == right[i] by {
        if i < a.len() / 2 {
            assert(ab[2 * i] == a[2 * i]);
            assert(ab[2 * i + 1] == a[2 * i + 1]);
        } else {
            let j = i - a.len() / 2;
            assert(ab[2 * i] == b[2 * j]);
            assert(ab[2 * i + 1] == b[2 * j + 1]);
        }
    }
    assert(left =~= right);
}

/// `hex::encode`: two lower-case digits for each byte, in order.
#[verifier::external_body]
pub(crate) fn hex_encode(bytes: &[u8]) -> (text: String)
    ensures
        text@ == hex_string(bytes@),
{
    hex::encode(bytes)
}

/// `hex::decode`: the bytes that the text stands for. It fails on text of
/// odd length and on any character that is no hex digit.
#[verifier::external_body]
pub(crate) fn hex_decode(text: &str) -> (bytes: Option<Vec<u8>>)
    ensures
        bytes is Some <==> is_hex(text@),
        bytes is Some ==> bytes.unwrap()@ == hex_bytes(text@),
{
    hex::decode(text).ok()
}

/// Tells whether the text is hex text for a byte string.
pub fn is_hex_text(text: &str) -> (yes: bool)
    ensures
        yes == is_hex(text@),
{
    hex_decode(text).is_some()
}

} // verus!
