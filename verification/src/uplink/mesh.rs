//! Decisions of the mesh heartbeat flow: the time of the heartbeat, and what
//! to do with the relay gateway that sent it.
use vstd::prelude::*;

use super::helpers::ProtoTimestamp;
use crate::storage::passive_roaming::invalid_time_message;
use crate::utc::{day_in_range, timestamp_converts, utc_after, utc_from_timestamp, UtcTime};

verus! {

/// The time of a heartbeat: none when the heartbeat carries no time (it is
/// then ignored and nothing is written), an error when its timestamp is no
/// UTC date-time.
pub fn heartbeat_time(time: Option<ProtoTimestamp>) -> (r: Result<Option<UtcTime>, String>)
    ensures
        time is None ==> r matches Ok(None),
        time matches Some(t) ==> (r is Ok <==> timestamp_converts(t.seconds, t.nanos)),
        time matches Some(t) ==> (r matches Ok(Some(u)) ==> u.secs == t.seconds && u.nanos
            == t.nanos && day_in_range(u.secs)),
        time matches Some(t) ==> (r matches Err(m) ==> m@ == "Convert time error: "@
            + invalid_time_message(t.nanos)),
        time is Some ==> !(r matches Ok(None)),
{
    match time {
        None => Ok(None),
        Some(t) => match utc_from_timestamp(t.seconds, t.nanos) {
            Ok(u) => Ok(Some(u)),
            Err(e) => {
                let mut m = "Convert time error: ".to_owned();
                m.append(e.as_str());
                Err(m)
            },
        },
    }
}

/// What a mesh heartbeat does to the stored relay gateway.
#[derive(Debug, Clone, PartialEq, Eq)]
pub enum RelayGatewayChange {
    /// The heartbeat is older than what was seen last: nothing is written.
    Ignore,
    /// The stored relay gateway gets the heartbeat time as last-seen time and
    /// the region of the border gateway.
    Update { last_seen_at: UtcTime, region_config_id: String },
    /// No relay gateway could be read: one is created, seen at the heartbeat
    /// time.
    Create { last_seen_at: UtcTime },
}

/// Given what reading the relay gateway gave (`None` when it failed, else its
/// last-seen time if any), the heartbeat time `ts`, and the
/// `region_config_id` property of the border gateway if it has one, what to
/// write. The stored last-seen time never goes back: an update is only made
/// with a time that is not before the stored one.
pub fn relay_gateway_change(
    stored: Option<Option<UtcTime>>,
    ts: UtcTime,
    region_config_id: Option<String>,
) -> (r: RelayGatewayChange)
    ensures
        stored is None ==> r == (RelayGatewayChange::Create { last_seen_at: ts }),
        stored matches Some(Some(l)) && utc_after(l, ts) ==> r == RelayGatewayChange::Ignore,
        stored matches Some(last) && !(last matches Some(l) && utc_after(l, ts)) ==> (r matches RelayGatewayChange::Update {
            last_seen_at,
            region_config_id: reg,
        } && last_seen_at == ts && reg@ == (match region_config_id {
            Some(v) => v@,
            None => Seq::<char>::empty(),
        })),
        r matches RelayGatewayChange::Update { last_seen_at, .. } ==> (stored matches Some(last)
            && (last matches Some(l) ==> !utc_after(l, last_seen_at))),
{
    match stored {
        None => RelayGatewayChange::Create { last_seen_at: ts },
        Some(last) => {
            if let Some(l) = last {
                if l.secs > ts.secs || (l.secs == ts.secs && l.nanos > ts.nanos) {
                    return RelayGatewayChange::Ignore;
                }
            }
            let region = match region_config_id {
                Some(v) => v,
                None => String::new(),
            };
            RelayGatewayChange::Update { last_seen_at: ts, region_config_id: region }
        },
    }
}

} // verus!
