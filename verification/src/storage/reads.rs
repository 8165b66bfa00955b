//! What a Redis read of a stored payload comes to: Redis answers a read of a
//! missing key with an empty value.
use vstd::prelude::*;

use super::error::Error;

verus! {

/// The payload that was read, or `None` when the key held nothing.
pub fn stored_payload(b: Vec<u8>) -> (r: Option<Vec<u8>>)
    ensures
        r is None <==> b@.len() == 0,
        r matches Some(v) ==> v@ == b@,
{
    if b.len() == 0 {
        None
    } else {
        Some(b)
    }
}

/// The payload that was read for the object with id `id`, or `NotFound(id)`
/// when the key held nothing.
pub fn found_payload(b: Vec<u8>, id: String) -> (r: Result<Vec<u8>, Error>)
    ensures
        r is Ok <==> b@.len() > 0,
        r matches Ok(v) ==> v@ == b@,
        r matches Err(e) ==> e matches Error::NotFound(s) && s@ == id@,
{
    match stored_payload(b) {
        Some(v) => Ok(v),
        None => Err(Error::NotFound(id)),
    }
}

} // verus!
