//! Passive-roaming device-sessions: the rules that need no network.
use vstd::prelude::*;

use super::fields::uuid::{
    uuid_bytes, uuid_from_slice, uuid_parse_result, uuid_parse_str, uuid_text_spec, uuid_to_string,
};
use super::keys::{pr_dev_addr_key, pr_dev_eui_key, pr_session_key};
use crate::lorawan::hexstr::hex_encode_spec;
use crate::lorawan::{self, DevAddr, EUI64};
use crate::utc::{
    day_in_range, timestamp_converts, utc_difference, utc_duration_nanos, utc_from_timestamp,
    utc_now, UtcTime,
};

verus! {

/// Why a passive-roaming device-session could not be stored.
#[derive(Debug, Clone, PartialEq, Eq)]
pub enum SaveError {
    /// The session id is not 16 bytes.
    SessionIdLength,
    /// The device address or DevEUI has the wrong length.
    Lrwn(lorawan::Error),
    /// The lifetime is no UTC date-time; the message says why.
    InvalidLifetime(String),
}

/// The Redis writes that store a passive-roaming device-session: the session
/// id text is added to the sets under `dev_addr_key` and `dev_eui_key`, and
/// the session is stored under `sess_key` for `pr_ttl_ms` milliseconds.
#[derive(Debug, Clone, PartialEq, Eq)]
pub struct SaveCommands {
    pub dev_addr_key: String,
    pub dev_eui_key: String,
    pub sess_key: String,
    pub session_id: String,
    pub pr_ttl_ms: u64,
}

/// The session id, device address and DevEUI have the lengths a session
/// needs: 16, 4, and 8 or none.
pub open spec fn save_ids_valid(session_id: Seq<u8>, dev_addr: Seq<u8>, dev_eui: Seq<u8>) -> bool {
    session_id.len() == 16 && dev_addr.len() == 4 && (dev_eui.len() == 0 || dev_eui.len() == 8)
}

/// The error for ids of the wrong length, checked in order: session id,
/// device address, DevEUI.
pub open spec fn save_ids_error(session_id: Seq<u8>, dev_addr: Seq<u8>, dev_eui: Seq<u8>) -> SaveError {
    if session_id.len() != 16 {
        SaveError::SessionIdLength
    } else if dev_addr.len() != 4 {
        SaveError::Lrwn(lorawan::Error::DevAddrLength)
    } else {
        SaveError::Lrwn(lorawan::Error::Eui64Length)
    }
}

/// The message of a lifetime timestamp that is no UTC date-time.
pub open spec fn invalid_time_message(nanos: i32) -> Seq<char> {
    if nanos < 0 {
        "out of range integral type conversion attempted"@
    } else {
        "invalid or out-of-range datetime"@
    }
}

/// The keys and session id text of the writes that store the session.
pub open spec fn save_keys_are(
    c: SaveCommands,
    prefix: Seq<char>,
    session_id: Seq<u8>,
    dev_addr: Seq<u8>,
    dev_eui: Seq<u8>,
) -> bool {
    let eui_bytes = if dev_eui.len() == 0 {
        Seq::new(8, |i: int| 0u8)
    } else {
        dev_eui
    };
    &&& c.session_id@ == uuid_text_spec(session_id)
    &&& c.dev_addr_key@ == prefix + "pr:devaddr:{"@ + hex_encode_spec(dev_addr) + "}"@
    &&& c.dev_eui_key@ == prefix + "pr:dev:{"@ + hex_encode_spec(eui_bytes) + "}"@
    &&& c.sess_key@ == prefix + "pr:sess:{"@ + uuid_text_spec(session_id) + "}"@
}

proof fn lemma_secs_bound(s: i64)
    requires
        day_in_range(s),
    ensures
        -200_000_000_000_000 <= s <= 200_000_000_000_000,
{
    assert(-200_000_000_000_000 <= s <= 200_000_000_000_000) by (nonlinear_arith)
        requires
            i32::MIN <= s / 86_400 + 719_163 <= i32::MAX,
    ;
}

/// `r` is what storing the session comes to at time `now`: the ids are
/// checked in order, then the lifetime must be a UTC date-time; a session
/// without lifetime, or whose lifetime is not after `now`, is not stored;
/// otherwise it is kept for the whole milliseconds left.
pub open spec fn save_outcome(
    r: Result<Option<SaveCommands>, SaveError>,
    prefix: Seq<char>,
    session_id: Seq<u8>,
    dev_addr: Seq<u8>,
    dev_eui: Seq<u8>,
    lifetime: Option<(i64, i32)>,
    now: UtcTime,
) -> bool {
    &&& !save_ids_valid(session_id, dev_addr, dev_eui) ==> r == Err::<Option<SaveCommands>, SaveError>(
        save_ids_error(session_id, dev_addr, dev_eui),
    )
    &&& r is Ok <==> save_ids_valid(session_id, dev_addr, dev_eui) && (lifetime matches Some(l)
        ==> timestamp_converts(l.0, l.1))
    &&& save_ids_valid(session_id, dev_addr, dev_eui) && lifetime is Some && !timestamp_converts(
        (lifetime->0).0,
        (lifetime->0).1,
    ) ==> (r matches Err(SaveError::InvalidLifetime(m)) && m@ == invalid_time_message(
        (lifetime->0).1,
    ))
    &&& r matches Ok(None) ==> lifetime is None || utc_duration_nanos(
        now.secs,
        now.nanos,
        (lifetime->0).0,
        (lifetime->0).1 as u32,
    ) <= 0
    &&& r matches Ok(Some(c)) ==> {
        let l = lifetime->0;
        let d = utc_duration_nanos(now.secs, now.nanos, l.0, l.1 as u32);
        &&& lifetime is Some
        &&& d > 0
        &&& c.pr_ttl_ms == d / 1_000_000
        &&& save_keys_are(c, prefix, session_id, dev_addr, dev_eui)
    }
}

/// What storing a passive-roaming device-session comes to at time `now`,
/// checked in this order: the session id must be 16 bytes, the device
/// address 4, the DevEUI 8 or none (then the all-zero DevEUI), and the
/// lifetime, a protobuf timestamp, must be a UTC date-time. A session without
/// lifetime, or whose lifetime is not after `now`, is not stored
/// (`Ok(None)`); otherwise it is kept for the whole milliseconds left.
pub fn save_commands(
    prefix: &str,
    session_id: &[u8],
    dev_addr: &[u8],
    dev_eui: &[u8],
    lifetime: Option<(i64, i32)>,
    now: UtcTime,
) -> (r: Result<Option<SaveCommands>, SaveError>)
    requires
        now.nanos < 2_000_000_000,
        day_in_range(now.secs),
        timestamp_converts(now.secs, now.nanos as i32),
    ensures
        save_outcome(r, prefix@, session_id@, dev_addr@, dev_eui@, lifetime, now),
{
    let sess_id = match uuid_from_slice(session_id) {
        Some(v) => v,
        None => return Err(SaveError::SessionIdLength),
    };
    let dev_addr = match DevAddr::from_slice(dev_addr) {
        Ok(a) => a,
        Err(e) => return Err(SaveError::Lrwn(e)),
    };
    let dev_eui = if dev_eui.len() == 0 {
        let z = EUI64::from_be_bytes([0u8; 8]);
        assert(z@ =~= Seq::new(8, |i: int| 0u8));
        z
    } else {
        match EUI64::from_slice(dev_eui) {
            Ok(e) => e,
            Err(e) => return Err(SaveError::Lrwn(e)),
        }
    };
    let (secs, nanos) = match lifetime {
        Some(l) => l,
        None => return Ok(None),
    };
    let l = match utc_from_timestamp(secs, nanos) {
        Ok(t) => t,
        Err(m) => return Err(SaveError::InvalidLifetime(m)),
    };
    let (dsecs, dnanos) = utc_difference(now, l);
    proof {
        lemma_secs_bound(now.secs);
        lemma_secs_bound(l.secs);
    }
    assert(-500_000_000_000_000 <= dsecs <= 500_000_000_000_000) by (nonlinear_arith)
        requires
            -1_000_000_000 < dnanos < 1_000_000_000,
            -400_000_000_000_000 * 1_000_000_000 - 3_000_000_000 <= dsecs * 1_000_000_000 + dnanos
                <= 400_000_000_000_000 * 1_000_000_000 + 3_000_000_000,
    ;
    let remaining: i128 = dsecs as i128 * 1_000_000_000 + dnanos as i128;
    if remaining <= 0 {
        return Ok(None);
    }
    assert(remaining / 1_000_000 <= u64::MAX) by (nonlinear_arith)
        requires
            0 < remaining <= 400_000_000_000_000 * 1_000_000_000 + 3_000_000_000,
    ;
    let pr_ttl_ms = (remaining / 1_000_000) as u64;
    let id_text = uuid_to_string(sess_id);
    Ok(
        Some(
            SaveCommands {
                dev_addr_key: pr_dev_addr_key(prefix, &dev_addr),
                dev_eui_key: pr_dev_eui_key(prefix, &dev_eui),
                sess_key: pr_session_key(prefix, id_text.as_str()),
                session_id: id_text,
                pr_ttl_ms,
            },
        ),
    )
}

/// What storing a passive-roaming device-session comes to now: the clock is
/// read, `save_commands` decides at that time, and the time read is given
/// back with the outcome.
pub fn save_commands_now(
    prefix: &str,
    session_id: &[u8],
    dev_addr: &[u8],
    dev_eui: &[u8],
    lifetime: Option<(i64, i32)>,
) -> (r: (Result<Option<SaveCommands>, SaveError>, UtcTime))
    ensures
        save_outcome(r.0, prefix@, session_id@, dev_addr@, dev_eui@, lifetime, r.1),
{
    let now = utc_now();
    (save_commands(prefix, session_id, dev_addr, dev_eui, lifetime, now), now)
}

/// The session ids kept in the set of a device address or DevEUI, read back
/// from their texts in order. A text that is no UUID makes the whole read
/// fail, with its index. The texts that `save_commands` writes are read back
/// as the ids they were written from.
pub fn parse_session_ids(ids: &[String]) -> (r: Result<Vec<u128>, usize>)
    ensures
        match r {
            Ok(out) => out@.len() == ids@.len() && forall|i: int|
                0 <= i < ids@.len() ==> uuid_parse_result(ids@[i]@) == Some(#[trigger] out@[i]),
            Err(k) => {
                &&& k < ids@.len()
                &&& uuid_parse_result(ids@[k as int]@) is None
                &&& forall|i: int| 0 <= i < k ==> (#[trigger] uuid_parse_result(ids@[i]@)) is Some
                &&& forall|v: u128| ids@[k as int]@ != uuid_text_spec(#[trigger] uuid_bytes(v))
            },
        },
        r matches Ok(out) ==> forall|i: int, v: u128|
            0 <= i < ids@.len() && ids@[i]@ == uuid_text_spec(#[trigger] uuid_bytes(v)) ==> (
            #[trigger] out@[i]) == v,
{
    let mut out: Vec<u128> = Vec::new();
    let mut i: usize = 0;
    while i < ids.len()
        invariant
            0 <= i <= ids@.len(),
            out@.len() == i,
            forall|j: int| 0 <= j < i ==> uuid_parse_result(ids@[j]@) == Some(#[trigger] out@[j]),
            forall|j: int, v: u128|
                0 <= j < i && ids@[j]@ == uuid_text_spec(#[trigger] uuid_bytes(v)) ==> (
                #[trigger] out@[j]) == v,
        decreases ids@.len() - i,
    {
        match uuid_parse_str(ids[i].as_str()) {
            Some(v) => out.push(v),
            None => {
                assert forall|j: int| 0 <= j < i implies (#[trigger] uuid_parse_result(
                    ids@[j]@,
                )) is Some by {
                    assert(uuid_parse_result(ids@[j]@) == Some(out@[j]));
                }
                return Err(i);
            },
        }
        i = i + 1;
    }
    Ok(out)
}

/// The full 32-bit uplink frame-counter that the 16 bits `truncated` sent by
/// the device stand for, when `next` is the next full counter expected: a
/// repeat of the last frame counts as `next - 1`, anything else as the first
/// counter from `next` on (modulo 2^32) that ends in the same 16 bits.
pub open spec fn full_f_cnt_up_spec(next: u32, truncated: u32) -> int {
    let lo = next % 65536;
    if truncated == (lo + 65535) % 65536 {
        next - 1
    } else {
        (next + (truncated % 65536 - lo + 65536) % 65536) % 0x1_0000_0000
    }
}

/// The full uplink frame-counter that the 16-bit counter `truncated_f_cnt`
/// stands for, given the next expected full counter.
pub fn get_full_f_cnt_up(next_expected_full_fcnt: u32, truncated_f_cnt: u32) -> (r: u32)
    requires
        !(next_expected_full_fcnt == 0 && truncated_f_cnt == 65535),
    ensures
        r == full_f_cnt_up_spec(next_expected_full_fcnt, truncated_f_cnt),
{
    let lo: u16 = (next_expected_full_fcnt % 65536) as u16;
    // Handle re-transmission.
    if truncated_f_cnt == lo.wrapping_sub(1) as u32 {
        return next_expected_full_fcnt - 1;
    }
    let t: u16 = (truncated_f_cnt % 65536) as u16;
    let gap = t.wrapping_sub(lo) as u32;
    next_expected_full_fcnt.wrapping_add(gap)
}

/// The full counter always ends in the 16 bits that the device sent, and it
/// is one behind the expected counter or at most 65534 ahead of it (counting
/// modulo 2^32).
pub proof fn lemma_full_f_cnt_up_matches_truncated(next: u32, truncated: u32)
    requires
        !(next == 0 && truncated == 65535),
        truncated < 65536,
    ensures
        full_f_cnt_up_spec(next, truncated) % 65536 == truncated,
        full_f_cnt_up_spec(next, truncated) == next - 1 || (full_f_cnt_up_spec(next, truncated)
            - next + 0x1_0000_0000) % 0x1_0000_0000 < 65535,
{
    assert(truncated < 65536 && !(next == 0 && truncated == 65535) && truncated == (next % 65536
        + 65535) % 65536 ==> (next - 1) % 65536 == truncated) by (bit_vector);
    assert(truncated < 65536 ==> ((next + (truncated - next % 65536 + 65536) % 65536)
        % 0x1_0000_0000) % 65536 == truncated) by (bit_vector);
    assert(truncated < 65536 && truncated != (next % 65536 + 65535) % 65536 ==> ((next + (
    truncated - next % 65536 + 65536) % 65536) % 0x1_0000_0000 - next + 0x1_0000_0000)
        % 0x1_0000_0000 < 65535) by (bit_vector);
}

} // verus!
