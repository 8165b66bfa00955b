//! Helpers that read the metadata of a received uplink.
use vstd::prelude::*;

use super::error::Error;
use crate::utc::{
    duration_parts, fits_time_delta, std_duration_fits_time_delta, timestamp_converts,
    utc_from_timestamp,
};

verus! {

/// An uplink channel of a region: its frequency in Hz and the range of
/// data-rates that it accepts.
#[derive(Debug, Clone, Copy, PartialEq, Eq)]
pub struct UplinkChannel {
    pub frequency: u32,
    pub min_dr: u8,
    pub max_dr: u8,
}

/// The channel has the frequency and accepts the data-rate.
pub open spec fn channel_matches(c: UplinkChannel, frequency: u32, dr: u8) -> bool {
    c.frequency == frequency && c.min_dr <= dr && dr <= c.max_dr
}

/// The index of the first uplink channel of the region (given by its channel
/// list) that has the frequency and accepts the data-rate.
pub fn get_uplink_ch(channels: &[UplinkChannel], frequency: u32, dr: u8) -> (r: Result<usize, Error>)
    ensures
        r matches Ok(i) ==> i < channels@.len() && channel_matches(channels@[i as int], frequency, dr)
            && forall|j: int| 0 <= j < i ==> !channel_matches(channels@[j], frequency, dr),
        r is Err <==> forall|j: int|
            0 <= j < channels@.len() ==> !channel_matches(#[trigger] channels@[j], frequency, dr),
        r matches Err(e) ==> e == (Error::UnknownChannel { frequency, dr }),
{
    let mut i: usize = 0;
    while i < channels.len()
        invariant
            0 <= i <= channels@.len(),
            forall|j: int| 0 <= j < i ==> !channel_matches(#[trigger] channels@[j], frequency, dr),
        decreases channels@.len() - i,
    {
        let c = channels[i];
        if c.frequency == frequency && c.min_dr <= dr && dr <= c.max_dr {
            return Ok(i);
        }
        i = i + 1;
    }
    Err(Error::UnknownChannel { frequency, dr })
}

/// A protobuf duration: seconds and nanoseconds, both signed.
#[derive(Debug, Clone, Copy, PartialEq, Eq)]
pub struct ProtoDuration {
    pub seconds: i64,
    pub nanos: i32,
}

/// The time since the GPS epoch that one gateway reported for an uplink, if
/// it reported one.
#[derive(Debug, Clone, Copy, PartialEq, Eq)]
pub struct RxGpsTime {
    pub time_since_gps_epoch: Option<ProtoDuration>,
}


/// The carry of the nanoseconds into the seconds does not overflow.
pub open spec fn duration_fits(d: ProtoDuration) -> bool {
    (d.seconds as u64) + (d.nanos as u32) / 1_000_000_000 <= u64::MAX
}

/// The index of the first gateway that reported a time since the GPS epoch,
/// or the number of gateways if none did.
pub open spec fn first_gps_time(rx_info: Seq<RxGpsTime>) -> int
    decreases rx_info.len(),
{
    if rx_info.len() == 0 {
        0
    } else if rx_info[0].time_since_gps_epoch is Some {
        0
    } else {
        1 + first_gps_time(rx_info.drop_first())
    }
}

proof fn lemma_first_gps_time(rx_info: Seq<RxGpsTime>)
    ensures
        0 <= first_gps_time(rx_info) <= rx_info.len(),
        forall|j: int|
            0 <= j < first_gps_time(rx_info) ==> (#[trigger] rx_info[j]).time_since_gps_epoch is None,
        first_gps_time(rx_info) < rx_info.len() ==> rx_info[first_gps_time(
            rx_info,
        )].time_since_gps_epoch is Some,
    decreases rx_info.len(),
{
    if rx_info.len() > 0 && rx_info[0].time_since_gps_epoch is None {
        lemma_first_gps_time(rx_info.drop_first());
        assert forall|j: int| 0 <= j < first_gps_time(rx_info) implies (
        #[trigger] rx_info[j]).time_since_gps_epoch is None by {
            if j > 0 {
                assert(rx_info[j] == rx_info.drop_first()[j - 1]);
            }
        }
    }
}

/// The time since the GPS epoch of the first gateway that reported one, as
/// the (seconds, nanoseconds) of a `std::time::Duration`: the protobuf fields
/// are cast to unsigned as they are, and whole seconds in the nanoseconds are
/// carried over.
pub fn get_time_since_gps_epoch(rx_info: &[RxGpsTime]) -> (r: Option<(u64, u32)>)
    requires
        first_gps_time(rx_info@) < rx_info@.len() ==> duration_fits(
            rx_info@[first_gps_time(rx_info@)].time_since_gps_epoch->0,
        ),
    ensures
        r is None <==> first_gps_time(rx_info@) == rx_info@.len(),
        r matches Some(p) ==> {
            let d = rx_info@[first_gps_time(rx_info@)].time_since_gps_epoch->0;
            p == duration_parts(d.seconds as u64, d.nanos as u32)
        },
{
    proof {
        lemma_first_gps_time(rx_info@);
    }
    let mut i: usize = 0;
    while i < rx_info.len()
        invariant
            0 <= i <= rx_info@.len(),
            i <= first_gps_time(rx_info@),
            first_gps_time(rx_info@) <= rx_info@.len(),
            forall|j: int|
                0 <= j < first_gps_time(rx_info@) ==> (#[trigger] rx_info@[j]).time_since_gps_epoch is None,
            first_gps_time(rx_info@) < rx_info@.len() ==> rx_info@[first_gps_time(
                rx_info@,
            )].time_since_gps_epoch is Some,
            first_gps_time(rx_info@) < rx_info@.len() ==> duration_fits(
                rx_info@[first_gps_time(rx_info@)].time_since_gps_epoch->0,
            ),
        decreases rx_info@.len() - i,
    {
        if let Some(d) = rx_info[i].time_since_gps_epoch {
            let secs = d.seconds as u64;
            let nanos = d.nanos as u32;
            return Some((secs + (nanos / 1_000_000_000) as u64, nanos % 1_000_000_000));
        }
        i = i + 1;
    }
    None
}

/// A protobuf timestamp: seconds since the Unix epoch and nanoseconds.
#[derive(Debug, Clone, Copy, PartialEq, Eq)]
pub struct ProtoTimestamp {
    pub seconds: i64,
    pub nanos: i32,
}

/// The times that one gateway reported for an uplink: the time since the
/// GPS epoch and its own clock time, each if it reported one.
#[derive(Debug, Clone, Copy, PartialEq, Eq)]
pub struct RxTimes {
    pub time_since_gps_epoch: Option<ProtoDuration>,
    pub gw_time: Option<ProtoTimestamp>,
}

/// Where the receive time of an uplink comes from.
#[derive(Debug, Clone, Copy, PartialEq, Eq)]
pub enum RxTimestampSource {
    /// The time since the GPS epoch reported by the gateway at this index.
    GpsTime(usize),
    /// The clock time reported by the gateway at this index.
    GatewayTime(usize),
    /// No gateway reported a usable time: the server's own clock.
    Now,
}

/// The (seconds, nanoseconds) of the time since the GPS epoch that a gateway
/// reported, as a `std::time::Duration` reads it.
pub open spec fn gps_parts(d: ProtoDuration) -> (u64, u32) {
    duration_parts(d.seconds as u64, d.nanos as u32)
}

/// The gateway reported a time since the GPS epoch that a `chrono` duration
/// can hold.
pub open spec fn gps_time_usable(r: RxTimes) -> bool {
    r.time_since_gps_epoch matches Some(d) && duration_fits(d) && fits_time_delta(
        gps_parts(d).0,
        gps_parts(d).1,
    )
}

/// The gateway reported a clock time that is a UTC date-time.
pub open spec fn gw_time_usable(r: RxTimes) -> bool {
    r.gw_time matches Some(t) && timestamp_converts(t.seconds, t.nanos)
}

/// The GPS time of gateway `a` is earlier than that of gateway `b`.
pub open spec fn gps_earlier(a: RxTimes, b: RxTimes) -> bool {
    let pa = gps_parts(a.time_since_gps_epoch->0);
    let pb = gps_parts(b.time_since_gps_epoch->0);
    pa.0 < pb.0 || (pa.0 == pb.0 && pa.1 < pb.1)
}

/// The clock time of gateway `a` is earlier than that of gateway `b`.
pub open spec fn gw_earlier(a: RxTimes, b: RxTimes) -> bool {
    let ta = a.gw_time->0;
    let tb = b.gw_time->0;
    ta.seconds < tb.seconds || (ta.seconds == tb.seconds && ta.nanos < tb.nanos)
}

/// Gateway `i` holds the earliest usable GPS time of the list: no usable one
/// is earlier, and every gateway before it with a usable one has a later one.
pub open spec fn earliest_gps(rx: Seq<RxTimes>, i: int) -> bool {
    &&& 0 <= i < rx.len()
    &&& gps_time_usable(rx[i])
    &&& forall|j: int| 0 <= j < rx.len() && gps_time_usable(#[trigger] rx[j]) ==> !gps_earlier(rx[j], rx[i])
    &&& forall|j: int| 0 <= j < i && gps_time_usable(#[trigger] rx[j]) ==> gps_earlier(rx[i], rx[j])
}

/// Gateway `i` holds the earliest usable clock time of the list, the first
/// of equal ones.
pub open spec fn earliest_gw(rx: Seq<RxTimes>, i: int) -> bool {
    &&& 0 <= i < rx.len()
    &&& gw_time_usable(rx[i])
    &&& forall|j: int| 0 <= j < rx.len() && gw_time_usable(#[trigger] rx[j]) ==> !gw_earlier(rx[j], rx[i])
    &&& forall|j: int| 0 <= j < i && gw_time_usable(#[trigger] rx[j]) ==> gw_earlier(rx[i], rx[j])
}

/// Where the receive time of an uplink is taken from: the earliest usable
/// time since the GPS epoch that the gateways reported, else the earliest
/// usable clock time they reported, else the server's clock; of equal times
/// the first gateway's. A GPS time too large for a duration is not usable.
pub fn rx_timestamp_source(rx_info: &[RxTimes]) -> (r: RxTimestampSource)
    ensures
        match r {
            RxTimestampSource::GpsTime(i) => earliest_gps(rx_info@, i as int),
            RxTimestampSource::GatewayTime(i) => (forall|j: int|
                0 <= j < rx_info@.len() ==> !gps_time_usable(#[trigger] rx_info@[j]))
                && earliest_gw(rx_info@, i as int),
            RxTimestampSource::Now => forall|j: int|
                0 <= j < rx_info@.len() ==> !gps_time_usable(#[trigger] rx_info@[j])
                    && !gw_time_usable(rx_info@[j]),
        },
{
    let mut best: Option<usize> = None;
    let mut best_secs: u64 = 0;
    let mut best_nanos: u32 = 0;
    let mut i: usize = 0;
    while i < rx_info.len()
        invariant
            0 <= i <= rx_info@.len(),
            best is None ==> forall|j: int| 0 <= j < i ==> !gps_time_usable(#[trigger] rx_info@[j]),
            best matches Some(b) ==> {
                &&& b < i
                &&& gps_time_usable(rx_info@[b as int])
                &&& gps_parts(rx_info@[b as int].time_since_gps_epoch->0) == (best_secs, best_nanos)
                &&& forall|j: int|
                    0 <= j < i && gps_time_usable(#[trigger] rx_info@[j]) ==> !gps_earlier(
                        rx_info@[j],
                        rx_info@[b as int],
                    )
                &&& forall|j: int|
                    0 <= j < b && gps_time_usable(#[trigger] rx_info@[j]) ==> gps_earlier(
                        rx_info@[b as int],
                        rx_info@[j],
                    )
            },
        decreases rx_info@.len() - i,
    {
        if let Some(d) = rx_info[i].time_since_gps_epoch {
            let secs = d.seconds as u64;
            let nanos = d.nanos as u32;
            let carry = (nanos / 1_000_000_000) as u64;
            if secs <= u64::MAX - carry {
                let s = secs + carry;
                let n = nanos % 1_000_000_000;
                if std_duration_fits_time_delta(s, n) {
                    let earlier = match best {
                        None => true,
                        Some(_) => s < best_secs || (s == best_secs && n < best_nanos),
                    };
                    if earlier {
                        best = Some(i);
                        best_secs = s;
                        best_nanos = n;
                    }
                }
            }
        }
        i = i + 1;
    }
    if let Some(b) = best {
        return RxTimestampSource::GpsTime(b);
    }
    let mut gbest: Option<usize> = None;
    let mut gbest_secs: i64 = 0;
    let mut gbest_nanos: i32 = 0;
    let mut k: usize = 0;
    while k < rx_info.len()
        invariant
            0 <= k <= rx_info@.len(),
            forall|j: int| 0 <= j < rx_info@.len() ==> !gps_time_usable(#[trigger] rx_info@[j]),
            gbest is None ==> forall|j: int| 0 <= j < k ==> !gw_time_usable(#[trigger] rx_info@[j]),
            gbest matches Some(b) ==> {
                &&& b < k
                &&& gw_time_usable(rx_info@[b as int])
                &&& rx_info@[b as int].gw_time->0 == (ProtoTimestamp {
                    seconds: gbest_secs,
                    nanos: gbest_nanos,
                })
                &&& forall|j: int|
                    0 <= j < k && gw_time_usable(#[trigger] rx_info@[j]) ==> !gw_earlier(
                        rx_info@[j],
                        rx_info@[b as int],
                    )
                &&& forall|j: int|
                    0 <= j < b && gw_time_usable(#[trigger] rx_info@[j]) ==> gw_earlier(
                        rx_info@[b as int],
                        rx_info@[j],
                    )
            },
        decreases rx_info@.len() - k,
    {
        if let Some(t) = rx_info[k].gw_time {
            if utc_from_timestamp(t.seconds, t.nanos).is_ok() {
                let earlier = match gbest {
                    None => true,
                    Some(_) => t.seconds < gbest_secs || (t.seconds == gbest_secs && t.nanos
                        < gbest_nanos),
                };
                if earlier {
                    gbest = Some(k);
                    gbest_secs = t.seconds;
                    gbest_nanos = t.nanos;
                }
            }
        }
        k = k + 1;
    }
    match gbest {
        Some(b) => RxTimestampSource::GatewayTime(b),
        None => RxTimestampSource::Now,
    }
}

} // verus!
