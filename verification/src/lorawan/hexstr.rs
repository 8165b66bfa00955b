//! Hexadecimal text encoding of byte strings, as done by the `hex` crate.
//!
//! The two calls into `hex` that the library makes stand behind the wrappers
//! of this module; their contracts are stated over the spec functions below.
use vstd::prelude::*;

use vstd::string::StringSliceAdditionalSpecFns;

verus! {

/// The ASCII code of the lowercase hexadecimal digit for a nibble `n < 16`.
pub open spec fn hex_digit(n: u8) -> u8 {
    if n < 10 {
        (48 + n) as u8
    } else {
        (87 + n) as u8
    }
}

/// Lowercase hexadecimal text of `b`: two characters per byte, high nibble first.
pub open spec fn hex_encode_spec(b: Seq<u8>) -> Seq<char> {
    Seq::new(
        2 * b.len(),
        |i: int|
            if i % 2 == 0 {
                hex_digit(b[i / 2] / 16) as char
            } else {
                hex_digit(b[i / 2] % 16) as char
            },
    )
}

/// The bytes of a text whose characters are all ASCII.
pub open spec fn ascii_bytes(s: Seq<char>) -> Seq<u8> {
    Seq::new(s.len(), |i: int| s[i] as u8)
}

/// `0-9`, `A-F` or `a-f`.
pub open spec fn is_hex_byte(c: u8) -> bool {
    (48 <= c <= 57) || (65 <= c <= 70) || (97 <= c <= 102)
}

/// The value of a hexadecimal digit.
pub open spec fn hex_value(c: u8) -> u8 {
    if 48 <= c <= 57 {
        (c - 48) as u8
    } else if 65 <= c <= 70 {
        (c - 55) as u8
    } else {
        (c - 87) as u8
    }
}

pub open spec fn all_hex(d: Seq<u8>) -> bool {
    forall|i: int| 0 <= i < d.len() ==> #[trigger] is_hex_byte(d[i])
}

/// The bytes that a text of hexadecimal digit pairs stands for.
pub open spec fn hex_decode_spec(d: Seq<u8>) -> Seq<u8> {
    Seq::new(
        d.len() / 2,
        |i: int| (hex_value(d[2 * i]) * 16 + hex_value(d[2 * i + 1])) as u8,
    )
}

/// The index of the first byte at or after `i` that is no hexadecimal digit,
/// or `d.len()` if there is none.
pub open spec fn first_non_hex(d: Seq<u8>, i: int) -> int
    decreases d.len() - i,
{
    if i < 0 || i >= d.len() {
        d.len() as int
    } else if !is_hex_byte(d[i]) {
        i
    } else {
        first_non_hex(d, i + 1)
    }
}

/// Why the hexadecimal text `d` can not be decoded into `n` bytes.
#[derive(Clone, Copy, Debug, PartialEq, Eq)]
pub enum HexError {
    /// A byte that is no hexadecimal digit, at the given index.
    InvalidHexCharacter { c: char, index: usize },
    /// The text has an odd number of digits.
    OddLength,
    /// The text stands for another number of bytes than the output holds.
    InvalidStringLength,
}

/// The error, if any, of decoding the text `d` into exactly `n` bytes: the
/// length is checked first, then the digits from left to right.
pub open spec fn decode_error(d: Seq<u8>, n: nat) -> Option<HexError> {
    if d.len() % 2 != 0 {
        Some(HexError::OddLength)
    } else if d.len() / 2 != n {
        Some(HexError::InvalidStringLength)
    } else if first_non_hex(d, 0) < d.len() {
        let j = first_non_hex(d, 0);
        Some(HexError::InvalidHexCharacter { c: d[j] as char, index: j as usize })
    } else {
        None
    }
}

/// Calls `hex::encode`: the lowercase hexadecimal text of `data`, two
/// characters per byte, high nibble first.
#[verifier::external_body]
pub(crate) fn hex_encode(data: &[u8]) -> (s: String)
    ensures
        s@ == hex_encode_spec(data@),
{
    hex::encode(data)
}

/// Calls `hex::decode_to_slice` on the whole of `out`: it fails with
/// `OddLength`, then `InvalidStringLength`, then `InvalidHexCharacter` for the
/// first byte that is no digit; on success `out` holds the decoded bytes.
/// What a failing call leaves in `out` (the pairs before the bad digit are
/// already written) is left unsaid, except its length.
#[verifier::external_body]
pub(crate) fn hex_decode_to_slice(data: &[u8], out: &mut Vec<u8>) -> (r: Result<(), HexError>)
    ensures
        final(out)@.len() == old(out)@.len(),
        match r {
            Ok(()) => decode_error(data@, old(out)@.len()) is None && final(out)@ == hex_decode_spec(
                data@,
            ),
            Err(e) => decode_error(data@, old(out)@.len()) == Some(e),
        },
{
    match hex::decode_to_slice(data, out.as_mut_slice()) {
        Ok(()) => Ok(()),
        Err(hex::FromHexError::InvalidHexCharacter { c, index }) => Err(
            HexError::InvalidHexCharacter { c, index },
        ),
        Err(hex::FromHexError::OddLength) => Err(HexError::OddLength),
        Err(hex::FromHexError::InvalidStringLength) => Err(HexError::InvalidStringLength),
    }
}

/// The message that the `hex` crate gives for a decoding error.
pub uninterp spec fn hex_error_display(e: HexError) -> Seq<char>;

/// Calls `Display` of `hex::FromHexError` on the error: "Odd number of
/// digits", "Invalid string length", or for a bad character its debug form
/// and position.
#[verifier::external_body]
pub(crate) fn hex_error_text(e: HexError) -> (s: String)
    ensures
        s@ == hex_error_display(e),
        e is OddLength ==> s@ == "Odd number of digits"@,
        e is InvalidStringLength ==> s@ == "Invalid string length"@,
{
    let h = match e {
        HexError::InvalidHexCharacter { c, index } => hex::FromHexError::InvalidHexCharacter {
            c,
            index,
        },
        HexError::OddLength => hex::FromHexError::OddLength,
        HexError::InvalidStringLength => hex::FromHexError::InvalidStringLength,
    };
    h.to_string()
}

/// Every byte before `first_non_hex(d, i)` (from `i` on) is a digit, and the
/// byte there, if any, is not.
pub proof fn lemma_first_non_hex(d: Seq<u8>, i: int)
    requires
        0 <= i <= d.len(),
    ensures
        i <= first_non_hex(d, i) <= d.len(),
        forall|k: int| i <= k < first_non_hex(d, i) ==> is_hex_byte(#[trigger] d[k]),
        first_non_hex(d, i) < d.len() ==> !is_hex_byte(d[first_non_hex(d, i)]),
    decreases d.len() - i,
{
    if i < d.len() && is_hex_byte(d[i]) {
        lemma_first_non_hex(d, i + 1);
    }
}

/// `first_non_hex(d, 0) == d.len()` exactly when every byte of `d` is a digit.
pub proof fn lemma_all_hex_iff(d: Seq<u8>)
    ensures
        all_hex(d) <==> first_non_hex(d, 0) == d.len(),
{
    lemma_first_non_hex(d, 0);
}

proof fn lemma_digit_roundtrip(n: u8)
    requires
        n < 16,
    ensures
        is_hex_byte(hex_digit(n)),
        hex_value(hex_digit(n)) == n,
        (hex_digit(n) as char) as u8 == hex_digit(n),
{
}

/// Decoding the ASCII bytes of the hexadecimal text of `b` gives `b` back.
pub proof fn lemma_hex_roundtrip(b: Seq<u8>)
    ensures
        ascii_bytes(hex_encode_spec(b)).len() == 2 * b.len(),
        all_hex(ascii_bytes(hex_encode_spec(b))),
        hex_decode_spec(ascii_bytes(hex_encode_spec(b))) =~= b,
        decode_error(ascii_bytes(hex_encode_spec(b)), b.len()) is None,
{
    let t = ascii_bytes(hex_encode_spec(b));
    assert forall|i: int| 0 <= i < t.len() implies #[trigger] is_hex_byte(t[i]) by {
        let x = b[i / 2];
        if i % 2 == 0 {
            assert(x / 16 < 16) by (bit_vector);
            lemma_digit_roundtrip(x / 16);
        } else {
            assert(x % 16 < 16) by (bit_vector);
            lemma_digit_roundtrip(x % 16);
        }
    }
    assert forall|i: int| 0 <= i < b.len() implies #[trigger] hex_decode_spec(t)[i] == b[i] by {
        let x = b[i];
        assert(x / 16 < 16 && x % 16 < 16 && ((x / 16) * 16 + x % 16) as u8 == x) by (bit_vector);
        lemma_digit_roundtrip(x / 16);
        lemma_digit_roundtrip(x % 16);
        assert(t[2 * i] == hex_digit(x / 16));
        assert(t[2 * i + 1] == hex_digit(x % 16));
    }
    lemma_all_hex_iff(t);
}

/// A `str` that holds the hexadecimal text of `b` holds its ASCII codes.
pub proof fn lemma_hex_text_bytes(b: Seq<u8>, s: &str)
    requires
        s@ == hex_encode_spec(b),
    ensures
        s.spec_bytes() == ascii_bytes(hex_encode_spec(b)),
{
    lemma_hex_roundtrip(b);
    let t = hex_encode_spec(b);
    assert forall|i: int| 0 <= i < t.len() implies (#[trigger] t[i]) as nat <= 127 by {
        assert(ascii_bytes(t)[i] == t[i] as u8);
    }
    assert(vstd::string::is_ascii(s));
    vstd::string::is_ascii_spec_bytes(s);
    assert(s.spec_bytes() =~= ascii_bytes(t));
}

/// Different byte strings have different hexadecimal texts.
pub proof fn lemma_hex_encode_injective(x: Seq<u8>, y: Seq<u8>)
    requires
        hex_encode_spec(x) == hex_encode_spec(y),
    ensures
        x == y,
{
    assert(hex_encode_spec(x).len() == 2 * x.len());
    assert(hex_encode_spec(y).len() == 2 * y.len());
    assert forall|i: int| 0 <= i < x.len() implies x[i] == y[i] by {
        let a = x[i];
        let b = y[i];
        assert((2 * i) % 2 == 0 && (2 * i) / 2 == i);
        assert((2 * i + 1) % 2 == 1 && (2 * i + 1) / 2 == i);
        assert(hex_encode_spec(x)[2 * i] == hex_encode_spec(y)[2 * i]);
        assert(hex_encode_spec(x)[2 * i + 1] == hex_encode_spec(y)[2 * i + 1]);
        assert(a / 16 < 16 && a % 16 < 16 && b / 16 < 16 && b % 16 < 16) by (bit_vector);
        lemma_digit_roundtrip(a / 16);
        lemma_digit_roundtrip(a % 16);
        lemma_digit_roundtrip(b / 16);
        lemma_digit_roundtrip(b % 16);
        assert(hex_encode_spec(x)[2 * i] == hex_digit(x[i] / 16) as char);
        assert(hex_encode_spec(y)[2 * i] == hex_digit(y[i] / 16) as char);
        assert((hex_digit(a / 16) as char) == (hex_digit(b / 16) as char));
        assert(hex_encode_spec(x)[2 * i + 1] == hex_digit(x[i] % 16) as char);
        assert(hex_encode_spec(y)[2 * i + 1] == hex_digit(y[i] % 16) as char);
        assert((hex_digit(a % 16) as char) == (hex_digit(b % 16) as char));
        assert(hex_digit(a / 16) == hex_digit(b / 16));
        assert(hex_digit(a % 16) == hex_digit(b % 16));
        assert(a / 16 == b / 16 && a % 16 == b % 16 ==> a == b) by (bit_vector);
    }
    assert(x =~= y);
}

} // verus!
