//! Reading back the frame log of a device or gateway: which frame a stream
//! entry holds, and the properties shown with it.
use vstd::prelude::*;

use super::event::{property_is, str_eq};

verus! {

/// The direction of the frame that an entry of a frame stream holds.
#[derive(Debug, Clone, Copy, PartialEq, Eq)]
pub enum FrameLogKind {
    Up,
    Down,
}

/// The field name under which frames of the direction are written.
pub open spec fn frame_log_key(kind: FrameLogKind) -> Seq<char> {
    match kind {
        FrameLogKind::Up => "up"@,
        FrameLogKind::Down => "down"@,
    }
}

/// The direction of the frame under the field name `k`; `None` for a name
/// that frame streams do not use (such entries are skipped).
pub fn frame_log_kind(k: &str) -> (r: Option<FrameLogKind>)
    ensures
        r matches Some(kind) ==> frame_log_key(kind) == k@,
        r is None ==> forall|kind: FrameLogKind| frame_log_key(kind) != k@,
        r == Some(FrameLogKind::Up) <==> k@ == "up"@,
        r == Some(FrameLogKind::Down) <==> k@ == "down"@,
{
    proof {
        reveal_strlit("up");
        reveal_strlit("down");
        assert("up"@.len() != "down"@.len());
    }
    if str_eq(k, "up") {
        Some(FrameLogKind::Up)
    } else if str_eq(k, "down") {
        Some(FrameLogKind::Down)
    } else {
        None
    }
}

/// The properties shown with an uplink frame: its device address and DevEUI.
pub fn uplink_frame_properties(dev_addr: String, dev_eui: String) -> (r: Vec<(String, String)>)
    ensures
        r@.len() == 2,
        property_is(r@[0], "DevAddr"@, dev_addr@),
        property_is(r@[1], "DevEUI"@, dev_eui@),
{
    let mut r: Vec<(String, String)> = Vec::new();
    r.push(("DevAddr".to_owned(), dev_addr));
    r.push(("DevEUI".to_owned(), dev_eui));
    r
}

/// The properties shown with a downlink frame: its device address, DevEUI
/// and the gateway that sent it.
pub fn downlink_frame_properties(dev_addr: String, dev_eui: String, gateway_id: String) -> (r: Vec<
    (String, String),
>)
    ensures
        r@.len() == 3,
        property_is(r@[0], "DevAddr"@, dev_addr@),
        property_is(r@[1], "DevEUI"@, dev_eui@),
        property_is(r@[2], "Gateway ID"@, gateway_id@),
{
    let mut r: Vec<(String, String)> = Vec::new();
    r.push(("DevAddr".to_owned(), dev_addr));
    r.push(("DevEUI".to_owned(), dev_eui));
    r.push(("Gateway ID".to_owned(), gateway_id));
    r
}

} // verus!
