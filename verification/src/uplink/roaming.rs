//! Decisions of the passive-roaming flows (uplink data and join-request),
//! taken on the answers of the roaming partner.
use vstd::prelude::*;

use super::helpers::ProtoTimestamp;
use crate::lorawan::{self, AES128Key};
use crate::storage::passive_roaming::full_f_cnt_up_spec;
use crate::storage::passive_roaming::get_full_f_cnt_up;

verus! {

/// The lifetime in seconds of a passive-roaming session as answered by the
/// partner: an absent or zero lifetime means a stateless session (`None`).
pub fn pr_session_lifetime(lifetime: Option<usize>) -> (r: Option<i64>)
    ensures
        r == (match lifetime {
            Some(lt) if lt as i64 != 0 => Some(lt as i64),
            _ => None::<i64>,
        }),
{
    let lt: i64 = match lifetime {
        Some(v) => v as i64,
        None => 0,
    };
    if lt == 0 {
        None
    } else {
        Some(lt)
    }
}

/// The envelope of the network session key of a new passive-roaming
/// session: the FNwkSIntKey when the partner sent one (LoRaWAN 1.1), else
/// the NwkSKey (LoRaWAN 1.0), else none.
pub fn pr_session_key_envelope<T>(f_nwk_s_int_key: Option<T>, nwk_s_key: Option<T>) -> (r: Option<T>)
    ensures
        r == (match f_nwk_s_int_key {
            Some(k) => Some(k),
            None => nwk_s_key,
        }),
{
    match f_nwk_s_int_key {
        Some(k) => Some(k),
        None => nwk_s_key,
    }
}

/// A join-request roaming session is stored only when the partner assigned
/// a device address and a non-zero lifetime.
pub fn should_save_roaming_session(dev_addr: &[u8], lifetime: Option<usize>) -> (r: bool)
    ensures
        r == (dev_addr@.len() > 0 && (lifetime matches Some(lt) && lt != 0)),
{
    if dev_addr.len() == 0 {
        return false;
    }
    match lifetime {
        None => false,
        Some(lt) => lt != 0,
    }
}

/// The uplink frame-counter that the session expects next, after an uplink
/// with counter `f_cnt`.
pub fn next_f_cnt_up(f_cnt: u32) -> (r: u32)
    requires
        f_cnt < u32::MAX,
    ensures
        r == f_cnt + 1,
{
    f_cnt + 1
}

/// A passive-roaming device-session, as far as the uplink flows read it.
#[derive(Debug, Clone, PartialEq, Eq)]
pub struct PrDeviceSession {
    pub session_id: Vec<u8>,
    pub net_id: Vec<u8>,
    pub dev_addr: Vec<u8>,
    pub dev_eui: Vec<u8>,
    /// Uplinks are only matched to the session when their MIC checks out.
    pub validate_mic: bool,
    pub lorawan_1_1: bool,
    pub f_nwk_s_int_key: Vec<u8>,
    /// The next uplink frame-counter expected.
    pub f_cnt_up: u32,
    /// The end of the session; none for a stateless session.
    pub lifetime: Option<ProtoTimestamp>,
}

/// New passive-roaming sessions are only started for an uplink when it
/// matched no existing session.
pub fn needs_session_start(sessions: &[PrDeviceSession]) -> (b: bool)
    ensures
        b == (sessions@.len() == 0),
{
    sessions.len() == 0
}

/// The sessions that were started, in the order of the NetIDs, kept when
/// the start succeeded and the session has a lifetime (a stateless session
/// is neither stored nor used to forward the uplink).
pub open spec fn stateful_started(started: Seq<Option<PrDeviceSession>>) -> Seq<PrDeviceSession>
    decreases started.len(),
{
    if started.len() == 0 {
        Seq::empty()
    } else {
        let rest = stateful_started(started.drop_last());
        match started.last() {
            Some(s) => if s.lifetime is Some {
                rest.push(s)
            } else {
                rest
            },
            None => rest,
        }
    }
}

/// Of the sessions started for an uplink, exactly the stateful ones are
/// kept: every kept session has a lifetime and was started, and every
/// started session with a lifetime is kept.
pub proof fn lemma_started_sessions_kept(started: Seq<Option<PrDeviceSession>>)
    ensures
        forall|i: int|
            0 <= i < stateful_started(started).len() ==> (#[trigger] stateful_started(
                started,
            )[i]).lifetime is Some,
        forall|i: int|
            0 <= i < stateful_started(started).len() ==> started.contains(
                Some(#[trigger] stateful_started(started)[i]),
            ),
        forall|j: int|
            0 <= j < started.len() && (#[trigger] started[j] matches Some(s) && s.lifetime is Some)
                ==> stateful_started(started).contains(started[j]->0),
    decreases started.len(),
{
    if started.len() > 0 {
        let init = started.drop_last();
        lemma_started_sessions_kept(init);
        let rest = stateful_started(init);
        let out = stateful_started(started);
        assert forall|i: int| 0 <= i < out.len() implies (#[trigger] out[i]).lifetime is Some
            && started.contains(Some(out[i])) by {
            if i < rest.len() {
                assert(out[i] == rest[i]);
                let j = choose|j: int| 0 <= j < init.len() && init[j] == Some(rest[i]);
                assert(started[j] == init[j]);
            } else {
                assert(started[started.len() - 1] == Some(out[i]));
            }
        }
        assert forall|j: int|
            0 <= j < started.len() && (#[trigger] started[j] matches Some(s) && s.lifetime is Some)
                implies out.contains(started[j]->0) by {
            if j < started.len() - 1 {
                assert(init[j] == started[j]);
                let k = choose|k: int| 0 <= k < rest.len() && rest[k] == started[j]->0;
                assert(out[k] == rest[k]);
            } else {
                assert(out[out.len() - 1] == started[j]->0);
            }
        }
    }
}

/// Keeps the sessions whose start succeeded (`Some`) and that have a
/// lifetime; a failed start (`None`) is skipped and the next NetID tried.
pub fn keep_started_sessions(started: Vec<Option<PrDeviceSession>>) -> (r: Vec<PrDeviceSession>)
    ensures
        r@ == stateful_started(started@),
        forall|i: int| 0 <= i < r@.len() ==> (#[trigger] r@[i]).lifetime is Some,
        forall|i: int| 0 <= i < r@.len() ==> started@.contains(Some(#[trigger] r@[i])),
        forall|j: int|
            0 <= j < started@.len() && (#[trigger] started@[j] matches Some(s) && s.lifetime is Some)
                ==> r@.contains(started@[j]->0),
{
    proof {
        lemma_started_sessions_kept(started@);
    }
    let ghost all = started@;
    let mut r: Vec<PrDeviceSession> = Vec::new();
    let mut rest = started;
    let ghost mut k: int = 0;
    while rest.len() > 0
        invariant
            0 <= k <= all.len(),
            rest@ == all.subrange(k, all.len() as int),
            r@ == stateful_started(all.take(k)),
        decreases rest@.len(),
    {
        let x = rest.remove(0);
        proof {
            assert(x == all[k]);
            assert(all.take(k + 1).drop_last() =~= all.take(k));
            assert(all.take(k + 1).last() == x);
            k = k + 1;
        }
        match x {
            Some(s) => {
                if s.lifetime.is_some() {
                    r.push(s);
                }
            },
            None => {},
        }
        assert(rest@ =~= all.subrange(k, all.len() as int));
    }
    assert(all.take(k) =~= all);
    r
}

/// How an uplink is matched against a session.
#[derive(Debug)]
pub enum MicCheck {
    /// The session does not check MICs: the uplink matches.
    Skip,
    /// The uplink matches when its MIC checks out under `key`, with the
    /// frame-counter set to the full counter `f_cnt`, by the LoRaWAN 1.1
    /// rules when `lorawan_1_1`, else by those of LoRaWAN 1.0.
    Check { key: AES128Key, f_cnt: u32, lorawan_1_1: bool },
}

/// The MIC check of an uplink with the 16-bit frame-counter `f_cnt` against
/// a session: none when the session does not check MICs; else with the
/// session's FNwkSIntKey, which must be 16 bytes, and the full counter that
/// `f_cnt` stands for given the session's expected counter.
pub fn session_mic_check(ds: &PrDeviceSession, f_cnt: u32) -> (r: Result<MicCheck, lorawan::Error>)
    requires
        ds.validate_mic && ds.f_nwk_s_int_key@.len() == 16 ==> !(ds.f_cnt_up == 0 && f_cnt
            == 65535),
    ensures
        !ds.validate_mic ==> r matches Ok(MicCheck::Skip),
        ds.validate_mic ==> (r is Ok <==> ds.f_nwk_s_int_key@.len() == 16),
        r matches Err(e) ==> e == lorawan::Error::Aes128Length,
        ds.validate_mic ==> (r matches Ok(MicCheck::Check { key, f_cnt: c, lorawan_1_1 }) ==> (
        key@ == ds.f_nwk_s_int_key@ && c == full_f_cnt_up_spec(ds.f_cnt_up, f_cnt) && lorawan_1_1
            == ds.lorawan_1_1)),
        ds.validate_mic ==> !(r matches Ok(MicCheck::Skip)),
{
    if !ds.validate_mic {
        return Ok(MicCheck::Skip);
    }
    let key = match AES128Key::from_slice(ds.f_nwk_s_int_key.as_slice()) {
        Ok(k) => k,
        Err(e) => return Err(e),
    };
    let full = get_full_f_cnt_up(ds.f_cnt_up, f_cnt);
    Ok(MicCheck::Check { key, f_cnt: full, lorawan_1_1: ds.lorawan_1_1 })
}

/// The sessions that an uplink matches, in order: those that do not check
/// MICs, and those whose MIC check (`mic_ok`, one per session) passed.
pub open spec fn mic_matched(sessions: Seq<PrDeviceSession>, mic_ok: Seq<bool>) -> Seq<PrDeviceSession>
    decreases sessions.len(),
{
    if sessions.len() == 0 {
        Seq::empty()
    } else {
        let rest = mic_matched(sessions.drop_last(), mic_ok.take(sessions.len() - 1));
        let s = sessions.last();
        if !s.validate_mic || mic_ok[sessions.len() - 1] {
            rest.push(s)
        } else {
            rest
        }
    }
}

/// Keeps the sessions that the uplink matches: those that do not check MICs,
/// and the others whose MIC check passed.
pub fn select_sessions_by_mic(sessions: Vec<PrDeviceSession>, mic_ok: &[bool]) -> (r: Vec<
    PrDeviceSession,
>)
    requires
        mic_ok@.len() == sessions@.len(),
    ensures
        r@ == mic_matched(sessions@, mic_ok@),
{
    let ghost all = sessions@;
    let mut r: Vec<PrDeviceSession> = Vec::new();
    let mut rest = sessions;
    let n: usize = rest.len();
    let mut k: usize = 0;
    while rest.len() > 0
        invariant
            0 <= k <= all.len(),
            all.len() == n,
            mic_ok@.len() == all.len(),
            rest@ == all.subrange(k as int, all.len() as int),
            r@ == mic_matched(all.take(k as int), mic_ok@.take(k as int)),
        decreases rest@.len(),
    {
        assert(k < all.len());
        let x = rest.remove(0);
        proof {
            assert(x == all[k as int]);
            assert(all.take(k + 1).drop_last() =~= all.take(k as int));
            assert(mic_ok@.take(k + 1).take(k as int) =~= mic_ok@.take(k as int));
            assert(all.take(k + 1).last() == x);
        }
        let keep = !x.validate_mic || mic_ok[k];
        if keep {
            r.push(x);
        }
        k = k + 1;
        assert(rest@ =~= all.subrange(k as int, all.len() as int));
    }
    assert(all.take(k as int) =~= all);
    assert(mic_ok@.take(k as int) =~= mic_ok@);
    r
}

} // verus!
