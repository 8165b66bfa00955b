//! Tenants and the users that belong to them.
use std::collections::HashMap;

use vstd::prelude::*;

use super::error::Error;
use super::fields::KeyValue;

verus! {

/// A tenant. Ids are the 128-bit value of a UUID; times are microseconds
/// since the Unix epoch.
#[derive(Debug)]
pub struct Tenant {
    pub id: u128,
    pub created_at: i64,
    pub updated_at: i64,
    pub name: String,
    pub description: String,
    pub can_have_gateways: bool,
    pub max_device_count: i32,
    pub max_gateway_count: i32,
    pub private_gateways_up: bool,
    pub private_gateways_down: bool,
    pub tags: KeyValue,
}

/// The membership of a user in a tenant.
#[derive(Debug, PartialEq, Eq)]
pub struct TenantUser {
    pub tenant_id: u128,
    pub user_id: u128,
    pub created_at: i64,
    pub updated_at: i64,
    pub is_admin: bool,
    pub is_device_admin: bool,
    pub is_gateway_admin: bool,
}

impl Tenant {
    /// A new tenant with the given id, created at `now`: no name (which must
    /// be set before it is stored), description or tags, no gateways allowed,
    /// all counts 0, gateways public both ways.
    pub fn new(id: u128, now: i64) -> (t: Tenant)
        ensures
            t.id == id,
            t.created_at == now,
            t.updated_at == now,
            t.name@ == Seq::<char>::empty(),
            t.description@ == Seq::<char>::empty(),
            !t.can_have_gateways,
            t.max_device_count == 0,
            t.max_gateway_count == 0,
            !t.private_gateways_up,
            !t.private_gateways_down,
            t.tags@ == Map::<String, String>::empty(),
    {
        Tenant {
            id,
            created_at: now,
            updated_at: now,
            name: String::new(),
            description: String::new(),
            can_have_gateways: false,
            max_device_count: 0,
            max_gateway_count: 0,
            private_gateways_up: false,
            private_gateways_down: false,
            tags: KeyValue::new(HashMap::new()),
        }
    }

    /// Checks a tenant before it is stored: it must have a name.
    pub fn validate(&self) -> (r: Result<(), Error>)
        ensures
            r is Ok <==> self.name@.len() > 0,
            r matches Err(e) ==> e matches Error::Validation(msg) && msg@ == "name is not set"@,
    {
        if self.name.as_str().is_empty() {
            return Err(Error::Validation("name is not set".to_owned()));
        }
        Ok(())
    }
}

/// The pattern that tenant names are matched against when listing or
/// counting tenants with a search text: the text anywhere in the name.
pub fn search_pattern(search: &str) -> (r: String)
    ensures
        r@ == "%"@ + search@ + "%"@,
{
    let mut r = "%".to_owned();
    r.append(search);
    r.append("%");
    r
}

impl TenantUser {
    /// A membership created at `now` with the nil tenant and user ids and no
    /// admin rights.
    pub fn new(now: i64) -> (tu: TenantUser)
        ensures
            tu.tenant_id == 0,
            tu.user_id == 0,
            tu.created_at == now,
            tu.updated_at == now,
            !tu.is_admin,
            !tu.is_device_admin,
            !tu.is_gateway_admin,
    {
        TenantUser {
            tenant_id: 0,
            user_id: 0,
            created_at: now,
            updated_at: now,
            is_admin: false,
            is_device_admin: false,
            is_gateway_admin: false,
        }
    }
}

} // verus!
