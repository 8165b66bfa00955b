//! The downlink queue of a device: validation of new items and the choice of
//! the next item to send.
use vstd::prelude::*;

use super::error::Error;
use crate::lorawan::hexstr::hex_encode_spec;
use crate::lorawan::EUI64;

verus! {

/// One queued downlink payload. Ids are the 128-bit value of the item's UUID;
/// times are microseconds since the Unix epoch.
#[derive(Debug)]
pub struct DeviceQueueItem {
    pub id: u128,
    pub dev_eui: EUI64,
    pub created_at: i64,
    pub f_port: i16,
    pub confirmed: bool,
    pub data: Vec<u8>,
    pub is_pending: bool,
    pub f_cnt_down: Option<i64>,
    pub timeout_after: Option<i64>,
    pub is_encrypted: bool,
    pub expires_at: Option<i64>,
}

/// The FPort is outside `1..=255`.
pub open spec fn invalid_f_port(f_port: i16) -> bool {
    f_port == 0 || f_port > 255
}

/// The item is encrypted but carries no frame-counter.
pub open spec fn missing_f_cnt_down(qi: DeviceQueueItem) -> bool {
    qi.is_encrypted && qi.f_cnt_down is None
}

impl DeviceQueueItem {
    /// A new, empty item with the given id, created at `now`: FPort 0 (which
    /// must be set before it is enqueued), not confirmed, not pending, not
    /// encrypted, no frame-counter, timeout or expiry, and the all-zero DevEUI.
    pub fn new(id: u128, now: i64) -> (qi: DeviceQueueItem)
        ensures
            qi.id == id,
            qi.dev_eui@ == Seq::new(8, |i: int| 0u8),
            qi.created_at == now,
            qi.f_port == 0,
            !qi.confirmed,
            qi.data@ == Seq::<u8>::empty(),
            !qi.is_pending,
            qi.f_cnt_down is None,
            qi.timeout_after is None,
            !qi.is_encrypted,
            qi.expires_at is None,
    {
        let dev_eui = EUI64::from_be_bytes([0u8; 8]);
        assert(dev_eui@ =~= Seq::new(8, |i: int| 0u8));
        DeviceQueueItem {
            id,
            dev_eui,
            created_at: now,
            f_port: 0,
            confirmed: false,
            data: Vec::new(),
            is_pending: false,
            f_cnt_down: None,
            timeout_after: None,
            is_encrypted: false,
            expires_at: None,
        }
    }

    /// Checks an item before it is enqueued: the FPort must be between 1 and
    /// 255, and an encrypted item must carry its frame-counter.
    pub fn validate(&self) -> (r: Result<(), Error>)
        ensures
            r is Ok <==> !invalid_f_port(self.f_port) && !missing_f_cnt_down(*self),
            r is Ok <==> self.f_port != 0 && self.f_port <= 255 && (!self.is_encrypted
                || self.f_cnt_down is Some),
            r matches Err(e) ==> e matches Error::Validation(msg) && msg@ == (if invalid_f_port(
                self.f_port,
            ) {
                "FPort must be between 1 - 255"@
            } else {
                "FCntDown must be set for encrypted queue-items"@
            }),
    {
        if self.f_port == 0 || self.f_port > 255 {
            return Err(Error::Validation("FPort must be between 1 - 255".to_owned()));
        }
        if self.is_encrypted && self.f_cnt_down.is_none() {
            return Err(
                Error::Validation("FCntDown must be set for encrypted queue-items".to_owned()),
            );
        }
        Ok(())
    }
}

/// The first item waits for the acknowledgement of an earlier transmission
/// that has not timed out yet at `now`.
pub open spec fn first_is_held_back(first: DeviceQueueItem, now: i64) -> bool {
    first.is_pending && (first.timeout_after matches Some(t) && t > now)
}

/// Picks the next item to send from the first items of a device's queue,
/// oldest first (the database hands over at most two), and tells whether more
/// items follow it. An empty queue, or a first item that is still pending and
/// has not timed out at `now`, gives `NotFound` with the DevEUI.
pub fn get_next_for_dev_eui(
    dev_eui: &EUI64,
    items: Vec<DeviceQueueItem>,
    now: i64,
) -> (r: Result<(DeviceQueueItem, bool), Error>)
    ensures
        r is Ok <==> items@.len() > 0 && !first_is_held_back(items@[0], now),
        r is Ok <==> items@.len() > 0 && (!items@[0].is_pending || items@[0].timeout_after is None
            || items@[0].timeout_after->0 <= now),
        r matches Ok((qi, more)) ==> qi == items@[0] && more == (items@.len() > 1),
        r matches Err(e) ==> e matches Error::NotFound(id) && id@ == hex_encode_spec(dev_eui@),
{
    if items.len() == 0 {
        return Err(Error::NotFound(dev_eui.to_string()));
    }
    if items[0].is_pending {
        if let Some(timeout_after) = items[0].timeout_after {
            if timeout_after > now {
                return Err(Error::NotFound(dev_eui.to_string()));
            }
        }
    }
    let more = items.len() > 1;
    let mut items = items;
    let first = items.remove(0);
    Ok((first, more))
}

/// The items are in the order in which they were created.
pub open spec fn oldest_first(items: Seq<DeviceQueueItem>) -> bool {
    forall|i: int, j: int| 0 <= i <= j < items.len() ==> items[i].created_at <= items[j].created_at
}

/// The queue is served first in, first out: the item handed out is the
/// oldest of the items it was picked from.
pub proof fn lemma_next_is_oldest(items: Seq<DeviceQueueItem>, next: DeviceQueueItem)
    requires
        oldest_first(items),
        items.len() > 0,
        next == items[0],
    ensures
        forall|j: int| 0 <= j < items.len() ==> next.created_at <= #[trigger] items[j].created_at,
{
}

/// Only a pending transmission whose acknowledgement may still come holds
/// the queue back: an item that is not pending, that is pending without a
/// timeout (such as a Class-A confirmed downlink in flight), or whose
/// timeout has passed, is handed out; a pending item whose timeout lies
/// ahead is not.
pub proof fn lemma_held_back_only_until_timeout(first: DeviceQueueItem, now: i64)
    ensures
        !first.is_pending ==> !first_is_held_back(first, now),
        first.timeout_after is None ==> !first_is_held_back(first, now),
        first.timeout_after is Some && first.timeout_after->0 <= now ==> !first_is_held_back(
            first,
            now,
        ),
        first.is_pending && first.timeout_after is Some && first.timeout_after->0 > now
            ==> first_is_held_back(first, now),
{
}

/// Which items pass validation: an FPort of 0 or above 255 is refused
/// whatever else the item holds; with a valid FPort, an unencrypted item
/// passes whatever its confirmed flag and frame-counter, and an encrypted
/// one passes exactly when it carries its frame-counter.
pub proof fn lemma_queue_item_validity(qi: DeviceQueueItem)
    ensures
        qi.f_port == 0 || qi.f_port > 255 ==> invalid_f_port(qi.f_port),
        qi.f_port != 0 && qi.f_port <= 255 ==> !invalid_f_port(qi.f_port),
        !qi.is_encrypted ==> !missing_f_cnt_down(qi),
        qi.is_encrypted ==> (missing_f_cnt_down(qi) <==> qi.f_cnt_down is None),
{
}

} // verus!
