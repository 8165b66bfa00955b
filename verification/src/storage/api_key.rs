//! API keys.
use vstd::prelude::*;

use super::error::Error;

verus! {

/// An API key. Ids are the 128-bit value of a UUID; `created_at` is in
/// microseconds since the Unix epoch.
#[derive(Debug, PartialEq, Eq)]
pub struct ApiKey {
    pub id: u128,
    pub created_at: i64,
    pub name: String,
    pub is_admin: bool,
    pub tenant_id: Option<u128>,
}

/// Which API keys a count or a listing is about.
#[derive(Debug, Clone, Copy, Default)]
pub struct Filters {
    pub tenant_id: Option<u128>,
    pub is_admin: bool,
}

impl ApiKey {
    /// A new key with the given id, created at `now`: no name (which must be
    /// set before it is stored), not admin, no tenant.
    pub fn new(id: u128, now: i64) -> (ak: ApiKey)
        ensures
            ak.id == id,
            ak.created_at == now,
            ak.name@ == Seq::<char>::empty(),
            !ak.is_admin,
            ak.tenant_id is None,
    {
        ApiKey { id, created_at: now, name: String::new(), is_admin: false, tenant_id: None }
    }

    /// Checks a key before it is stored: it must have a name.
    pub fn validate(&self) -> (r: Result<(), Error>)
        ensures
            r is Ok <==> self.name@.len() > 0,
            r matches Err(e) ==> e matches Error::Validation(msg) && msg@ == "name is not set"@,
    {
        if self.name.as_str().is_empty() {
            return Err(Error::Validation("name is not set".to_owned()));
        }
        Ok(())
    }
}

} // verus!
