//! UUIDs, held by the library as their 128-bit value, and their text form.
//! The calls into the `uuid` crate stand behind the wrappers of this module.
use vstd::prelude::*;

use crate::lorawan::hexstr::hex_encode_spec;

verus! {

/// The 16 bytes of a UUID with value `v`, most significant first.
pub open spec fn uuid_bytes(v: u128) -> Seq<u8> {
    Seq::new(16, |i: int| ((v >> ((8 * (15 - i)) as u128)) & 0xffu128) as u8)
}

/// The hyphenated lowercase text of the UUID with bytes `b`: groups of 4, 2,
/// 2, 2 and 6 bytes in hexadecimal, joined by `-`.
pub open spec fn uuid_text_spec(b: Seq<u8>) -> Seq<char> {
    hex_encode_spec(b.subrange(0, 4)) + "-"@ + hex_encode_spec(b.subrange(4, 6)) + "-"@
        + hex_encode_spec(b.subrange(6, 8)) + "-"@ + hex_encode_spec(b.subrange(8, 10)) + "-"@
        + hex_encode_spec(b.subrange(10, 16))
}

/// Calls `uuid::Uuid::from_slice`: a UUID exactly when there are 16 bytes,
/// taken as its big-endian bytes. The crate's error, which only says that the
/// length is wrong, is dropped.
#[verifier::external_body]
pub(crate) fn uuid_from_slice(b: &[u8]) -> (r: Option<u128>)
    ensures
        r is Some <==> b@.len() == 16,
        r matches Some(v) ==> uuid_bytes(v) == b@,
{
    match uuid::Uuid::from_slice(b) {
        Ok(u) => Some(u.as_u128()),
        Err(_) => None,
    }
}

/// What `uuid::Uuid::parse_str` makes of a text: the value of the UUID it
/// reads (the crate accepts several notations), or `None` when it refuses it.
pub uninterp spec fn uuid_parse_result(s: Seq<char>) -> Option<u128>;

/// Calls `uuid::Uuid::parse_str` and takes the value of the UUID it reads;
/// the crate's error is dropped. Among the notations the crate reads is the
/// hyphenated lowercase text, which it reads as the UUID it was written from.
#[verifier::external_body]
pub(crate) fn uuid_parse_str(s: &str) -> (r: Option<u128>)
    ensures
        r == uuid_parse_result(s@),
        forall|v: u128| s@ == uuid_text_spec(uuid_bytes(v)) ==> r == Some(v),
{
    match uuid::Uuid::parse_str(s) {
        Ok(u) => Some(u.as_u128()),
        Err(_) => None,
    }
}

/// Calls `Display` of `uuid::Uuid` on the UUID with value `v`: its
/// hyphenated lowercase text.
#[verifier::external_body]
pub(crate) fn uuid_to_string(v: u128) -> (s: String)
    ensures
        s@ == uuid_text_spec(uuid_bytes(v)),
{
    uuid::Uuid::from_u128(v).to_string()
}

/// A UUID as a column value, held as its 128-bit value.
#[derive(Copy, Clone, Debug, PartialEq, Eq, Hash)]
pub struct Uuid(u128);

impl View for Uuid {
    type V = u128;

    /// The 128-bit value of the UUID.
    closed spec fn view(&self) -> u128 {
        self.0
    }
}

impl Uuid {
    /// The UUID with the given value.
    pub fn from_u128(v: u128) -> (u: Uuid)
        ensures
            u@ == v,
    {
        Uuid(v)
    }

    /// The value of the UUID.
    pub fn as_u128(&self) -> (v: u128)
        ensures
            v == self@,
    {
        self.0
    }

    /// The UUID as hyphenated lowercase text.
    pub fn to_string(&self) -> (s: String)
        ensures
            s@ == uuid_text_spec(uuid_bytes(self@)),
    {
        uuid_to_string(self.0)
    }

    /// The UUID that the text stands for, in any notation that the `uuid`
    /// crate reads; `None` for a text that is no UUID. The hyphenated text of
    /// a UUID is read as that UUID.
    pub fn parse_str(s: &str) -> (r: Option<Uuid>)
        ensures
            r matches Some(u) ==> uuid_parse_result(s@) == Some(u@),
            r is None ==> uuid_parse_result(s@) is None,
            forall|v: u128| s@ == uuid_text_spec(#[trigger] uuid_bytes(v)) ==> (r matches Some(u) && u@ == v),
    {
        match uuid_parse_str(s) {
            Some(v) => Some(Uuid(v)),
            None => None,
        }
    }
}

} // verus!
