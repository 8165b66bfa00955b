//! Errors of the LoRaWAN value types.
use vstd::prelude::*;

use super::hexstr::{hex_error_display, hex_error_text, HexError};

verus! {

/// Why a key, identifier or address could not be built.
#[derive(Clone, Copy, Debug, PartialEq, Eq)]
pub enum Error {
    /// An AES-128 key must be exactly 16 bytes.
    Aes128Length,
    /// An EUI-64 must be exactly 8 bytes.
    Eui64Length,
    /// A device address must be exactly 4 bytes.
    DevAddrLength,
    /// The hexadecimal text could not be decoded.
    FromHex(HexError),
}

/// The text of an error: the `hex` crate's message for a decoding error, and
/// the name of the kind for a wrong length.
pub open spec fn lrwn_error_text(e: Error) -> Seq<char> {
    match e {
        Error::Aes128Length => "Aes128Length"@,
        Error::Eui64Length => "Eui64Length"@,
        Error::DevAddrLength => "DevAddrLength"@,
        Error::FromHex(h) => hex_error_display(h),
    }
}

impl Error {
    /// The text of the error.
    pub fn to_string(&self) -> (s: String)
        ensures
            s@ == lrwn_error_text(*self),
    {
        match self {
            Error::Aes128Length => "Aes128Length".to_owned(),
            Error::Eui64Length => "Eui64Length".to_owned(),
            Error::DevAddrLength => "DevAddrLength".to_owned(),
            Error::FromHex(h) => hex_error_text(*h),
        }
    }
}

} // verus!
