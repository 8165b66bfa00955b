//! The root keys of a device, and the DevNonce check of a join.
use vstd::prelude::*;

use super::error::Error;
use super::fields::dev_nonces::{
    lemma_insert_keeps_other_join_euis, lemma_insert_keeps_used, lemma_insert_then_contains,
};
use super::fields::DevNonces;
use crate::lorawan::aes128::zero_block;
use crate::lorawan::eui64::be_u64;
use crate::lorawan::{AES128Key, EUI64};

verus! {

/// The root keys of a device and the nonces of its joins. Times are
/// microseconds since the Unix epoch.
#[derive(Debug)]
pub struct DeviceKeys {
    pub dev_eui: EUI64,
    pub created_at: i64,
    pub updated_at: i64,
    pub nwk_key: AES128Key,
    pub app_key: AES128Key,
    pub dev_nonces: DevNonces,
    pub join_nonce: i32,
}

impl DeviceKeys {
    /// The keys of a device before anything is set, created at `now`: the
    /// all-zero DevEUI and keys, no nonces, join-nonce 0.
    pub fn new(now: i64) -> (dk: DeviceKeys)
        ensures
            dk.dev_eui@ == Seq::new(8, |i: int| 0u8),
            dk.created_at == now,
            dk.updated_at == now,
            dk.nwk_key@ == zero_block(),
            dk.app_key@ == zero_block(),
            dk.dev_nonces@ == Map::<u64, Seq<u16>>::empty(),
            dk.join_nonce == 0,
    {
        let dev_eui = EUI64::from_be_bytes([0u8; 8]);
        assert(dev_eui@ =~= Seq::new(8, |i: int| 0u8));
        DeviceKeys {
            dev_eui,
            created_at: now,
            updated_at: now,
            nwk_key: AES128Key::null(),
            app_key: AES128Key::null(),
            dev_nonces: DevNonces::new(),
            join_nonce: 0,
        }
    }
}

/// A join with `dev_nonce` for `join_eui` is accepted: the nonce was not used
/// before with that JoinEUI.
pub open spec fn accepts_dev_nonce(dk: DeviceKeys, join_eui: EUI64, dev_nonce: u16) -> bool {
    !dk.dev_nonces.spec_contains(join_eui, dev_nonce)
}

/// `after` is `before` with the join recorded at time `now`: the nonce added
/// to the JoinEUI's nonces, the join-nonce one higher, `updated_at` set.
pub open spec fn is_join_recorded(
    before: DeviceKeys,
    after: DeviceKeys,
    join_eui: EUI64,
    dev_nonce: u16,
    now: i64,
) -> bool {
    &&& after.dev_eui == before.dev_eui
    &&& after.created_at == before.created_at
    &&& after.updated_at == now
    &&& after.nwk_key == before.nwk_key
    &&& after.app_key == before.app_key
    &&& after.join_nonce == before.join_nonce + 1
    &&& after.dev_nonces@ == before.dev_nonces@.insert(
        be_u64(join_eui@),
        before.dev_nonces.spec_nonces(join_eui).push(dev_nonce),
    )
}

/// Checks the DevNonce of a join against the keys of the device as read from
/// the database, and gives back the keys to write: the nonce stored and the
/// join-nonce incremented. A nonce used before with the same JoinEUI is
/// refused with `InvalidDevNonce`.
pub fn validate_incr_join_and_store_dev_nonce(
    dk: DeviceKeys,
    join_eui: EUI64,
    dev_nonce: u16,
    now: i64,
) -> (r: Result<DeviceKeys, Error>)
    requires
        accepts_dev_nonce(dk, join_eui, dev_nonce) ==> dk.join_nonce < i32::MAX,
    ensures
        r is Ok <==> accepts_dev_nonce(dk, join_eui, dev_nonce),
        r matches Ok(n) ==> is_join_recorded(dk, n, join_eui, dev_nonce, now),
        r matches Err(e) ==> e is InvalidDevNonce,
{
    let mut dk = dk;
    if dk.dev_nonces.contains(join_eui, dev_nonce) {
        return Err(Error::InvalidDevNonce);
    }
    dk.dev_nonces.insert(join_eui, dev_nonce);
    dk.join_nonce = dk.join_nonce + 1;
    dk.updated_at = now;
    Ok(dk)
}

/// Once a join is recorded, the same DevNonce is refused for that JoinEUI,
/// and every nonce that was refused before is still refused.
pub proof fn lemma_recorded_join_refuses_replay(
    before: DeviceKeys,
    after: DeviceKeys,
    join_eui: EUI64,
    dev_nonce: u16,
    now: i64,
    other_eui: EUI64,
    other_nonce: u16,
)
    requires
        is_join_recorded(before, after, join_eui, dev_nonce, now),
    ensures
        !accepts_dev_nonce(after, join_eui, dev_nonce),
        !accepts_dev_nonce(before, other_eui, other_nonce) ==> !accepts_dev_nonce(
            after,
            other_eui,
            other_nonce,
        ),
{
    lemma_insert_then_contains(before.dev_nonces, after.dev_nonces, join_eui, dev_nonce);
    if !accepts_dev_nonce(before, other_eui, other_nonce) {
        lemma_insert_keeps_used(
            before.dev_nonces,
            after.dev_nonces,
            join_eui,
            dev_nonce,
            other_eui,
            other_nonce,
        );
    }
}

/// A join recorded for one JoinEUI changes nothing for the joins of any
/// other JoinEUI: the same DevNonce is accepted or refused there as before.
pub proof fn lemma_recorded_join_keeps_other_join_euis(
    before: DeviceKeys,
    after: DeviceKeys,
    join_eui: EUI64,
    dev_nonce: u16,
    now: i64,
    other_eui: EUI64,
    other_nonce: u16,
)
    requires
        is_join_recorded(before, after, join_eui, dev_nonce, now),
        other_eui@ != join_eui@,
    ensures
        accepts_dev_nonce(after, other_eui, other_nonce) == accepts_dev_nonce(
            before,
            other_eui,
            other_nonce,
        ),
{
    lemma_insert_keeps_other_join_euis(
        before.dev_nonces,
        after.dev_nonces,
        join_eui,
        dev_nonce,
        other_eui,
    );
}

} // verus!
