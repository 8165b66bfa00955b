//! The layout of the keys that the network server keeps in Redis.
//!
//! Every key is the configured prefix followed by a fixed pattern; the
//! identifiers inside the braces are written in lowercase hexadecimal.
use vstd::prelude::*;

use crate::lorawan::hexstr::{hex_encode_spec, lemma_hex_encode_injective};
use crate::lorawan::{DevAddr, EUI64};

verus! {

/// `s` with the configured Redis key prefix in front.
pub fn redis_key(prefix: &str, s: String) -> (r: String)
    ensures
        r@ == prefix@ + s@,
{
    let mut r = prefix.to_owned();
    r.append(s.as_str());
    r
}

/// Under one prefix, different texts give different keys: the prefix keeps
/// the keys of one installation apart without merging any of them.
pub proof fn lemma_redis_key_injective(prefix: Seq<char>, s1: Seq<char>, s2: Seq<char>)
    requires
        prefix + s1 == prefix + s2,
    ensures
        s1 == s2,
{
    assert(s1 =~= (prefix + s1).subrange(prefix.len() as int, (prefix + s1).len() as int));
    assert(s2 =~= (prefix + s2).subrange(prefix.len() as int, (prefix + s2).len() as int));
}

/// Keys made from one pattern around the hexadecimal text of two different
/// identifiers of the same length are different: no two devices, gateways or
/// addresses share a key.
pub proof fn lemma_hex_keys_distinct(head: Seq<char>, x: Seq<u8>, y: Seq<u8>, tail: Seq<char>)
    requires
        x.len() == y.len(),
        x != y,
    ensures
        head + hex_encode_spec(x) + tail != head + hex_encode_spec(y) + tail,
{
    let kx = head + hex_encode_spec(x) + tail;
    let ky = head + hex_encode_spec(y) + tail;
    if kx == ky {
        let lo = head.len() as int;
        let hi = lo + 2 * x.len();
        assert(kx.subrange(lo, hi) =~= hex_encode_spec(x));
        assert(ky.subrange(lo, hi) =~= hex_encode_spec(y));
        lemma_hex_encode_injective(x, y);
    }
}

/// The character of a decimal digit `d < 10`.
pub open spec fn decimal_digit(d: nat) -> char {
    ((48 + d) as u8) as char
}

/// The decimal text of `n`, without leading zeros.
pub open spec fn decimal_spec(n: nat) -> Seq<char>
    decreases n,
{
    if n < 10 {
        seq![decimal_digit(n)]
    } else {
        decimal_spec(n / 10) + seq![decimal_digit(n % 10)]
    }
}

fn digit_str(d: u32) -> (s: &'static str)
    requires
        d < 10,
    ensures
        s@ == seq![decimal_digit(d as nat)],
{
    proof {
        reveal_strlit("0");
        reveal_strlit("1");
        reveal_strlit("2");
        reveal_strlit("3");
        reveal_strlit("4");
        reveal_strlit("5");
        reveal_strlit("6");
        reveal_strlit("7");
        reveal_strlit("8");
        reveal_strlit("9");
    }
    if d == 0 {
        "0"
    } else if d == 1 {
        "1"
    } else if d == 2 {
        "2"
    } else if d == 3 {
        "3"
    } else if d == 4 {
        "4"
    } else if d == 5 {
        "5"
    } else if d == 6 {
        "6"
    } else if d == 7 {
        "7"
    } else if d == 8 {
        "8"
    } else {
        "9"
    }
}

/// Appends the decimal text of `n` to `s`.
pub(crate) fn append_decimal(s: &mut String, n: u32)
    ensures
        final(s)@ == old(s)@ + decimal_spec(n as nat),
    decreases n,
{
    if n >= 10 {
        append_decimal(s, n / 10);
    }
    s.append(digit_str(n % 10));
    proof {
        assert(old(s)@ + decimal_spec(n as nat) =~= if n >= 10 {
            old(s)@ + decimal_spec((n / 10) as nat) + seq![decimal_digit((n % 10) as nat)]
        } else {
            old(s)@ + seq![decimal_digit((n % 10) as nat)]
        });
    }
}

/// `prefix` + `a` + `b` + `c`.
fn concat3(prefix: &str, a: &str, b: &str, c: &str) -> (r: String)
    ensures
        r@ == prefix@ + a@ + b@ + c@,
{
    let mut r = prefix.to_owned();
    r.append(a);
    r.append(b);
    r.append(c);
    r
}

/// Key of the gateway rx-info of a device: `device:{<dev_eui>}:gwrx`.
pub fn device_gateway_rx_info_key(prefix: &str, dev_eui: &EUI64) -> (r: String)
    ensures
        r@ == prefix@ + "device:{"@ + hex_encode_spec(dev_eui@) + "}:gwrx"@,
{
    let id = dev_eui.to_string();
    concat3(prefix, "device:{", id.as_str(), "}:gwrx")
}

/// Key of the session of a device: `device:{<dev_eui>}:ds`.
pub fn device_session_key(prefix: &str, dev_eui: &EUI64) -> (r: String)
    ensures
        r@ == prefix@ + "device:{"@ + hex_encode_spec(dev_eui@) + "}:ds"@,
{
    let id = dev_eui.to_string();
    concat3(prefix, "device:{", id.as_str(), "}:ds")
}

/// Key of a downlink frame: `frame:<downlink_id>`.
pub fn downlink_frame_key(prefix: &str, downlink_id: u32) -> (r: String)
    ensures
        r@ == prefix@ + "frame:"@ + decimal_spec(downlink_id as nat),
{
    let mut r = prefix.to_owned();
    r.append("frame:");
    append_decimal(&mut r, downlink_id);
    r
}

/// Key of the pending mac-command block of a device for a command id:
/// `device:<dev_eui>:mac:pending:<cid>`.
pub fn mac_command_pending_key(prefix: &str, dev_eui: &EUI64, cid: u8) -> (r: String)
    ensures
        r@ == prefix@ + "device:"@ + hex_encode_spec(dev_eui@) + ":mac:pending:"@ + decimal_spec(
            cid as nat,
        ),
{
    let id = dev_eui.to_string();
    let mut r = concat3(prefix, "device:", id.as_str(), ":mac:pending:");
    append_decimal(&mut r, cid as u32);
    r
}

/// Key of the passive-roaming session ids of a device address:
/// `pr:devaddr:{<dev_addr>}`.
pub fn pr_dev_addr_key(prefix: &str, dev_addr: &DevAddr) -> (r: String)
    ensures
        r@ == prefix@ + "pr:devaddr:{"@ + hex_encode_spec(dev_addr@) + "}"@,
{
    let id = dev_addr.to_string();
    concat3(prefix, "pr:devaddr:{", id.as_str(), "}")
}

/// Key of the passive-roaming session ids of a device: `pr:dev:{<dev_eui>}`.
pub fn pr_dev_eui_key(prefix: &str, dev_eui: &EUI64) -> (r: String)
    ensures
        r@ == prefix@ + "pr:dev:{"@ + hex_encode_spec(dev_eui@) + "}"@,
{
    let id = dev_eui.to_string();
    concat3(prefix, "pr:dev:{", id.as_str(), "}")
}

/// Key of a passive-roaming session, given the text of its id:
/// `pr:sess:{<id>}`.
pub fn pr_session_key(prefix: &str, session_id: &str) -> (r: String)
    ensures
        r@ == prefix@ + "pr:sess:{"@ + session_id@ + "}"@,
{
    concat3(prefix, "pr:sess:{", session_id, "}")
}

/// Key of the event stream of a device: `device:{<dev_eui>}:stream:event`.
pub fn device_event_stream_key(prefix: &str, dev_eui: &str) -> (r: String)
    ensures
        r@ == prefix@ + "device:{"@ + dev_eui@ + "}:stream:event"@,
{
    concat3(prefix, "device:{", dev_eui, "}:stream:event")
}

/// Key of the frame stream of a device: `device:{<dev_eui>}:stream:frame`.
pub fn device_frame_stream_key(prefix: &str, dev_eui: &str) -> (r: String)
    ensures
        r@ == prefix@ + "device:{"@ + dev_eui@ + "}:stream:frame"@,
{
    concat3(prefix, "device:{", dev_eui, "}:stream:frame")
}

/// Key of the frame stream of a gateway: `gw:{<gateway_id>}:stream:frame`.
pub fn gateway_frame_stream_key(prefix: &str, gateway_id: &str) -> (r: String)
    ensures
        r@ == prefix@ + "gw:{"@ + gateway_id@ + "}:stream:frame"@,
{
    concat3(prefix, "gw:{", gateway_id, "}:stream:frame")
}

} // verus!
