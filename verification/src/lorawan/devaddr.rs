//! 32-bit device addresses.
use vstd::prelude::*;

use super::error::Error;
use super::hexstr::{
    decode_error, hex_decode_spec, hex_decode_to_slice, hex_encode, hex_encode_spec,
    lemma_hex_roundtrip, lemma_hex_text_bytes,
};
use vstd::string::StringSliceAdditionalSpecFns;

verus! {

/// A 32-bit device address, held in big-endian byte order.
#[derive(Copy, Clone, PartialEq, Eq, Default, Debug, Hash)]
pub struct DevAddr([u8; 4]);

impl View for DevAddr {
    type V = Seq<u8>;

    /// The 4 bytes of the address, most significant first.
    closed spec fn view(&self) -> Seq<u8> {
        self.0@
    }
}

/// What a device-address text stands for: exactly 8 hexadecimal digits.
pub open spec fn parse_devaddr_text(b: Seq<u8>) -> Result<Seq<u8>, Error> {
    match decode_error(b, 4) {
        Some(e) => Err(Error::FromHex(e)),
        None => Ok(hex_decode_spec(b)),
    }
}

/// `r` is the address result that `expected` describes.
pub open spec fn devaddr_result_is(r: Result<DevAddr, Error>, expected: Result<Seq<u8>, Error>) -> bool {
    match (r, expected) {
        (Ok(k), Ok(v)) => k@ == v,
        (Err(e), Err(f)) => e == f,
        _ => false,
    }
}

fn array4_from_slice(b: &[u8]) -> (out: [u8; 4])
    requires
        b@.len() == 4,
    ensures
        out@ == b@,
{
    let mut out = [0u8; 4];
    let mut i: usize = 0;
    while i < 4
        invariant
            b@.len() == 4,
            0 <= i <= 4,
            out@.len() == 4,
            forall|j: int| 0 <= j < i ==> out@[j] == b@[j],
        decreases 4 - i,
    {
        out[i] = b[i];
        i = i + 1;
    }
    assert(out@ =~= b@);
    out
}

impl DevAddr {
    /// Every address is 4 bytes.
    pub proof fn lemma_len(&self)
        ensures
            self@.len() == 4,
    {
    }

    /// The address with the given big-endian bytes.
    pub fn from_be_bytes(b: [u8; 4]) -> (e: DevAddr)
        ensures
            e@ == b@,
    {
        DevAddr(b)
    }

    /// The big-endian bytes of the address.
    pub fn to_be_bytes(&self) -> (b: [u8; 4])
        ensures
            b@ == self@,
    {
        self.0
    }

    /// The address made of the given bytes, which must be exactly 4.
    pub fn from_slice(b: &[u8]) -> (r: Result<DevAddr, Error>)
        ensures
            r is Ok <==> b@.len() == 4,
            r matches Ok(e) ==> e@ == b@,
            r matches Err(e) ==> e == Error::DevAddrLength,
    {
        if b.len() != 4 {
            return Err(Error::DevAddrLength);
        }
        Ok(DevAddr(array4_from_slice(b)))
    }

    /// The address as lowercase hexadecimal text.
    pub fn to_string(&self) -> (s: String)
        ensures
            s@ == hex_encode_spec(self@),
    {
        hex_encode(self.0.as_slice())
    }

    /// The address that 8 hexadecimal digits stand for.
    pub fn from_str(s: &str) -> (r: Result<DevAddr, Error>)
        ensures
            devaddr_result_is(r, parse_devaddr_text(s.spec_bytes())),
    {
        let mut out: Vec<u8> = vec![0u8; 4];
        match hex_decode_to_slice(s.as_bytes(), &mut out) {
            Ok(()) => Ok(DevAddr(array4_from_slice(out.as_slice()))),
            Err(e) => Err(Error::FromHex(e)),
        }
    }
}

/// Reading back the hexadecimal text of a value gives the value.
pub proof fn lemma_devaddr_text_roundtrip(v: DevAddr, s: &str)
    requires
        s@ == hex_encode_spec(v@),
    ensures
        parse_devaddr_text(s.spec_bytes()) == Ok::<Seq<u8>, Error>(v@),
{
    v.lemma_len();
    lemma_hex_roundtrip(v@);
    lemma_hex_text_bytes(v@, s);
}

} // verus!
