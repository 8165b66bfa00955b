//! The streams that a log entry is written to. Each stream has a configured
//! maximum history; a maximum of 0 switches the stream off.
use vstd::prelude::*;

use crate::lorawan::hexstr::{hex_decode_spec, hex_encode_spec};
use crate::lorawan::eui64::parse_eui64_text;
use crate::lorawan::{self, EUI64};
use crate::storage::keys::{
    device_event_stream_key, device_frame_stream_key, gateway_frame_stream_key, redis_key,
};
use vstd::string::StringSliceAdditionalSpecFns;

verus! {

/// The keys of the two streams of a log entry: the one of the device or
/// gateway, and the global one; `None` for a stream that is switched off.
#[derive(Debug, Clone, PartialEq, Eq)]
pub struct LogTargets {
    pub per_key: Option<String>,
    pub global_key: Option<String>,
}

/// `k` is the key `expected` when the stream is on (`max_history > 0`), and
/// `None` when it is off.
pub open spec fn target_is(k: Option<String>, max_history: usize, expected: Seq<char>) -> bool {
    if max_history > 0 {
        k matches Some(s) && s@ == expected
    } else {
        k is None
    }
}

/// The key of a single stream, given its name and maximum history.
pub fn stream_log_target(prefix: &str, name: &str, max_history: usize) -> (r: Option<String>)
    ensures
        target_is(r, max_history, prefix@ + name@),
{
    if max_history > 0 {
        Some(redis_key(prefix, name.to_owned()))
    } else {
        None
    }
}

/// The streams of an uplink frame received by one gateway. The gateway id
/// must be an EUI-64 in hexadecimal, or the entry is refused; the gateway
/// stream key holds the id in lowercase.
pub fn uplink_gateway_frame_log_targets(
    prefix: &str,
    gateway_id: &str,
    per_gateway_max_history: usize,
    global_max_history: usize,
) -> (r: Result<LogTargets, lorawan::Error>)
    ensures
        r is Ok <==> parse_eui64_text(gateway_id.spec_bytes()) is Ok,
        r matches Err(e) ==> parse_eui64_text(gateway_id.spec_bytes()) == Err::<Seq<u8>, lorawan::Error>(e),
        r matches Ok(t) ==> target_is(
            t.per_key,
            per_gateway_max_history,
            prefix@ + "gw:{"@ + hex_encode_spec(hex_decode_spec(gateway_id.spec_bytes()))
                + "}:stream:frame"@,
        ) && target_is(t.global_key, global_max_history, prefix@ + "gw:stream:frame"@),
{
    let gateway_id = match EUI64::from_str(gateway_id) {
        Ok(g) => g,
        Err(e) => return Err(e),
    };
    let id = gateway_id.to_string();
    let per_key = if per_gateway_max_history > 0 {
        Some(gateway_frame_stream_key(prefix, id.as_str()))
    } else {
        None
    };
    Ok(LogTargets { per_key, global_key: stream_log_target(prefix, "gw:stream:frame", global_max_history) })
}

/// The streams of a downlink frame sent by a gateway; the gateway id must be
/// set and is used as it is.
pub fn downlink_gateway_frame_log_targets(
    prefix: &str,
    gateway_id: &str,
    per_gateway_max_history: usize,
    global_max_history: usize,
) -> (r: Result<LogTargets, String>)
    ensures
        r is Err <==> gateway_id@.len() == 0,
        r matches Err(msg) ==> msg@ == "gateway_id must be set"@,
        r matches Ok(t) ==> target_is(
            t.per_key,
            per_gateway_max_history,
            prefix@ + "gw:{"@ + gateway_id@ + "}:stream:frame"@,
        ) && target_is(t.global_key, global_max_history, prefix@ + "gw:stream:frame"@),
{
    if gateway_id.is_empty() {
        return Err("gateway_id must be set".to_owned());
    }
    let per_key = if per_gateway_max_history > 0 {
        Some(gateway_frame_stream_key(prefix, gateway_id))
    } else {
        None
    };
    Ok(LogTargets { per_key, global_key: stream_log_target(prefix, "gw:stream:frame", global_max_history) })
}

/// The streams of an uplink or downlink frame of a device; the DevEUI must
/// be set.
pub fn device_frame_log_targets(
    prefix: &str,
    dev_eui: &str,
    per_device_max_history: usize,
    global_max_history: usize,
) -> (r: Result<LogTargets, String>)
    ensures
        r is Err <==> dev_eui@.len() == 0,
        r matches Err(msg) ==> msg@ == "dev_eui must be set"@,
        r matches Ok(t) ==> target_is(
            t.per_key,
            per_device_max_history,
            prefix@ + "device:{"@ + dev_eui@ + "}:stream:frame"@,
        ) && target_is(t.global_key, global_max_history, prefix@ + "device:stream:frame"@),
{
    if dev_eui.is_empty() {
        return Err("dev_eui must be set".to_owned());
    }
    let per_key = if per_device_max_history > 0 {
        Some(device_frame_stream_key(prefix, dev_eui))
    } else {
        None
    };
    Ok(
        LogTargets {
            per_key,
            global_key: stream_log_target(prefix, "device:stream:frame", global_max_history),
        },
    )
}

/// The streams of an event of a device.
pub fn device_event_log_targets(
    prefix: &str,
    dev_eui: &str,
    per_device_max_history: usize,
    global_max_history: usize,
) -> (t: LogTargets)
    ensures
        target_is(
            t.per_key,
            per_device_max_history,
            prefix@ + "device:{"@ + dev_eui@ + "}:stream:event"@,
        ),
        target_is(t.global_key, global_max_history, prefix@ + "device:stream:event"@),
{
    let per_key = if per_device_max_history > 0 {
        Some(device_event_stream_key(prefix, dev_eui))
    } else {
        None
    };
    LogTargets {
        per_key,
        global_key: stream_log_target(prefix, "device:stream:event", global_max_history),
    }
}

} // verus!
