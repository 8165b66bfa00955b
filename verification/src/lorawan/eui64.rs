//! EUI-64 identifiers (DevEUI, JoinEUI, gateway ids).
use vstd::prelude::*;

use super::error::Error;
use super::hexstr::{
    decode_error, hex_decode_spec, hex_decode_to_slice, hex_encode, hex_encode_spec,
    lemma_hex_roundtrip, lemma_hex_text_bytes,
};
use vstd::string::StringSliceAdditionalSpecFns;

verus! {

/// A 64-bit extended unique identifier, held in big-endian byte order.
#[derive(Copy, Clone, PartialEq, Eq, Default, Debug, Hash)]
pub struct EUI64([u8; 8]);

impl View for EUI64 {
    type V = Seq<u8>;

    /// The 8 bytes of the identifier, most significant first.
    closed spec fn view(&self) -> Seq<u8> {
        self.0@
    }
}

/// The unsigned integer whose big-endian bytes are `b[0..8]`.
pub open spec fn be_u64(b: Seq<u8>) -> u64 {
    (b[0] as u64) << 56u64 | (b[1] as u64) << 48u64 | (b[2] as u64) << 40u64 | (b[3] as u64)
        << 32u64 | (b[4] as u64) << 24u64 | (b[5] as u64) << 16u64 | (b[6] as u64) << 8u64 | (
    b[7] as u64)
}

/// What an EUI-64 text stands for: exactly 16 hexadecimal digits.
pub open spec fn parse_eui64_text(b: Seq<u8>) -> Result<Seq<u8>, Error> {
    match decode_error(b, 8) {
        Some(e) => Err(Error::FromHex(e)),
        None => Ok(hex_decode_spec(b)),
    }
}

/// `r` is the identifier result that `expected` describes.
pub open spec fn eui64_result_is(r: Result<EUI64, Error>, expected: Result<Seq<u8>, Error>) -> bool {
    match (r, expected) {
        (Ok(k), Ok(v)) => k@ == v,
        (Err(e), Err(f)) => e == f,
        _ => false,
    }
}

fn array8_from_slice(b: &[u8]) -> (out: [u8; 8])
    requires
        b@.len() == 8,
    ensures
        out@ == b@,
{
    let mut out = [0u8; 8];
    let mut i: usize = 0;
    while i < 8
        invariant
            b@.len() == 8,
            0 <= i <= 8,
            out@.len() == 8,
            forall|j: int| 0 <= j < i ==> out@[j] == b@[j],
        decreases 8 - i,
    {
        out[i] = b[i];
        i = i + 1;
    }
    assert(out@ =~= b@);
    out
}

impl EUI64 {
    /// Every identifier is 8 bytes.
    pub proof fn lemma_len(&self)
        ensures
            self@.len() == 8,
    {
    }

    /// The identifier with the given big-endian bytes.
    pub fn from_be_bytes(b: [u8; 8]) -> (e: EUI64)
        ensures
            e@ == b@,
    {
        EUI64(b)
    }

    /// The big-endian bytes of the identifier.
    pub fn to_be_bytes(&self) -> (b: [u8; 8])
        ensures
            b@ == self@,
    {
        self.0
    }

    /// The identifier made of the given bytes, which must be exactly 8.
    pub fn from_slice(b: &[u8]) -> (r: Result<EUI64, Error>)
        ensures
            r is Ok <==> b@.len() == 8,
            r matches Ok(e) ==> e@ == b@,
            r matches Err(e) ==> e == Error::Eui64Length,
    {
        if b.len() != 8 {
            return Err(Error::Eui64Length);
        }
        Ok(EUI64(array8_from_slice(b)))
    }

    /// The identifier as a big-endian unsigned integer.
    pub fn to_u64(&self) -> (v: u64)
        ensures
            v == be_u64(self@),
    {
        (self.0[0] as u64) << 56u64 | (self.0[1] as u64) << 48u64 | (self.0[2] as u64) << 40u64 | (
        self.0[3] as u64) << 32u64 | (self.0[4] as u64) << 24u64 | (self.0[5] as u64) << 16u64 | (
        self.0[6] as u64) << 8u64 | (self.0[7] as u64)
    }

    /// The identifier as lowercase hexadecimal text.
    pub fn to_string(&self) -> (s: String)
        ensures
            s@ == hex_encode_spec(self@),
    {
        hex_encode(self.0.as_slice())
    }

    /// The identifier that 16 hexadecimal digits stand for.
    pub fn from_str(s: &str) -> (r: Result<EUI64, Error>)
        ensures
            eui64_result_is(r, parse_eui64_text(s.spec_bytes())),
    {
        let mut out: Vec<u8> = vec![0u8; 8];
        match hex_decode_to_slice(s.as_bytes(), &mut out) {
            Ok(()) => Ok(EUI64(array8_from_slice(out.as_slice()))),
            Err(e) => Err(Error::FromHex(e)),
        }
    }
}

/// Reading back the hexadecimal text of a value gives the value.
pub proof fn lemma_eui64_text_roundtrip(v: EUI64, s: &str)
    requires
        s@ == hex_encode_spec(v@),
    ensures
        parse_eui64_text(s.spec_bytes()) == Ok::<Seq<u8>, Error>(v@),
{
    v.lemma_len();
    lemma_hex_roundtrip(v@);
    lemma_hex_text_bytes(v@, s);
}

/// Different identifiers are different integers.
pub proof fn lemma_be_u64_injective(a: EUI64, b: EUI64)
    requires
        be_u64(a@) == be_u64(b@),
    ensures
        a@ == b@,
{
    a.lemma_len();
    b.lemma_len();
    let (a0, a1, a2, a3, a4, a5, a6, a7) = (a@[0], a@[1], a@[2], a@[3], a@[4], a@[5], a@[6], a@[7]);
    let (b0, b1, b2, b3, b4, b5, b6, b7) = (b@[0], b@[1], b@[2], b@[3], b@[4], b@[5], b@[6], b@[7]);
    assert((a0 as u64) << 56u64 | (a1 as u64) << 48u64 | (a2 as u64) << 40u64 | (a3 as u64) << 32u64
        | (a4 as u64) << 24u64 | (a5 as u64) << 16u64 | (a6 as u64) << 8u64 | (a7 as u64) == (
    b0 as u64) << 56u64 | (b1 as u64) << 48u64 | (b2 as u64) << 40u64 | (b3 as u64) << 32u64 | (
    b4 as u64) << 24u64 | (b5 as u64) << 16u64 | (b6 as u64) << 8u64 | (b7 as u64) ==> a0 == b0
        && a1 == b1 && a2 == b2 && a3 == b3 && a4 == b4 && a5 == b5 && a6 == b6 && a7 == b7)
        by (bit_vector);
    assert(a@ =~= b@);
}

} // verus!
