use chirpstack::lorawan::Error as LrwnError;
use chirpstack::uplink::helpers::{
    get_time_since_gps_epoch, get_uplink_ch, rx_timestamp_source, ProtoDuration, ProtoTimestamp,
    RxGpsTime, RxTimes, RxTimestampSource, UplinkChannel,
};
use chirpstack::uplink::mesh::{heartbeat_time, relay_gateway_change, RelayGatewayChange};
use chirpstack::uplink::roaming::{
    keep_started_sessions, needs_session_start, next_f_cnt_up, pr_session_key_envelope,
    pr_session_lifetime, select_sessions_by_mic, session_mic_check, should_save_roaming_session,
    MicCheck, PrDeviceSession,
};
use chirpstack::utc::UtcTime;
use chirpstack::uplink::Error;

fn eu868_channels() -> Vec<UplinkChannel> {
    vec![
        UplinkChannel {
            frequency: 868100000,
            min_dr: 0,
            max_dr: 5,
        },
        UplinkChannel {
            frequency: 868300000,
            min_dr: 0,
            max_dr: 5,
        },
        UplinkChannel {
            frequency: 868300000,
            min_dr: 6,
            max_dr: 6,
        },
        UplinkChannel {
            frequency: 868500000,
            min_dr: 0,
            max_dr: 5,
        },
    ]
}

#[test]
fn uplink_channel_lookup() {
    let ch = eu868_channels();
    assert_eq!(Ok(0), get_uplink_ch(&ch, 868100000, 0));
    assert_eq!(Ok(1), get_uplink_ch(&ch, 868300000, 5));
    assert_eq!(Ok(2), get_uplink_ch(&ch, 868300000, 6));
    assert_eq!(
        Err(Error::UnknownChannel {
            frequency: 868100000,
            dr: 6
        }),
        get_uplink_ch(&ch, 868100000, 6)
    );
    assert_eq!(
        Err(Error::UnknownChannel {
            frequency: 867100000,
            dr: 0
        }),
        get_uplink_ch(&ch, 867100000, 0)
    );
}

#[test]
fn gps_time_of_first_gateway() {
    let none = RxGpsTime {
        time_since_gps_epoch: None,
    };
    let a = RxGpsTime {
        time_since_gps_epoch: Some(ProtoDuration {
            seconds: 10,
            nanos: 500,
        }),
    };
    let b = RxGpsTime {
        time_since_gps_epoch: Some(ProtoDuration {
            seconds: 20,
            nanos: 0,
        }),
    };
    assert_eq!(None, get_time_since_gps_epoch(&[]));
    assert_eq!(None, get_time_since_gps_epoch(&[none]));
    assert_eq!(Some((10, 500)), get_time_since_gps_epoch(&[none, a, b]));
    let carry = RxGpsTime {
        time_since_gps_epoch: Some(ProtoDuration {
            seconds: 1,
            nanos: 1_500_000_000,
        }),
    };
    assert_eq!(Some((2, 500_000_000)), get_time_since_gps_epoch(&[carry]));
    let d = std::time::Duration::new(1, 1_500_000_000);
    assert_eq!((d.as_secs(), d.subsec_nanos()), (2, 500_000_000));
}

#[test]
fn roaming_decisions() {
    assert_eq!(None, pr_session_lifetime(None));
    assert_eq!(None, pr_session_lifetime(Some(0)));
    assert_eq!(Some(3600), pr_session_lifetime(Some(3600)));

    assert_eq!(Some(1), pr_session_key_envelope(Some(1), Some(2)));
    assert_eq!(Some(2), pr_session_key_envelope(None, Some(2)));
    assert_eq!(None::<u8>, pr_session_key_envelope(None, None));

    assert!(should_save_roaming_session(&[1, 2, 3, 4], Some(10)));
    assert!(!should_save_roaming_session(&[], Some(10)));
    assert!(!should_save_roaming_session(&[1], None));
    assert!(!should_save_roaming_session(&[1], Some(0)));

    assert_eq!(11, next_f_cnt_up(10));
}

fn t(secs: i64, nanos: u32) -> UtcTime {
    UtcTime { secs, nanos }
}

#[test]
fn mesh_heartbeat_decision() {
    assert_eq!(
        RelayGatewayChange::Create { last_seen_at: t(100, 0) },
        relay_gateway_change(None, t(100, 0), Some("eu868".to_string()))
    );
    assert_eq!(
        RelayGatewayChange::Update {
            last_seen_at: t(100, 0),
            region_config_id: "eu868".to_string()
        },
        relay_gateway_change(Some(None), t(100, 0), Some("eu868".to_string()))
    );
    assert_eq!(
        RelayGatewayChange::Update {
            last_seen_at: t(100, 0),
            region_config_id: String::new()
        },
        relay_gateway_change(Some(Some(t(100, 0))), t(100, 0), None)
    );
    assert_eq!(
        RelayGatewayChange::Ignore,
        relay_gateway_change(Some(Some(t(100, 1))), t(100, 0), None)
    );
    assert_eq!(
        RelayGatewayChange::Ignore,
        relay_gateway_change(Some(Some(t(101, 0))), t(100, 999_999_999), None)
    );
}

#[test]
fn mesh_heartbeat_time() {
    assert_eq!(Ok(None), heartbeat_time(None));
    assert_eq!(
        Ok(Some(t(1_700_000_000, 5))),
        heartbeat_time(Some(ProtoTimestamp { seconds: 1_700_000_000, nanos: 5 }))
    );
    assert_eq!(
        Err("Convert time error: out of range integral type conversion attempted".to_string()),
        heartbeat_time(Some(ProtoTimestamp { seconds: 0, nanos: -1 }))
    );
    assert_eq!(
        Err("Convert time error: invalid or out-of-range datetime".to_string()),
        heartbeat_time(Some(ProtoTimestamp { seconds: i64::MIN, nanos: 0 }))
    );
}

fn gps(seconds: i64, nanos: i32) -> Option<ProtoDuration> {
    Some(ProtoDuration { seconds, nanos })
}

fn gw(seconds: i64, nanos: i32) -> Option<ProtoTimestamp> {
    Some(ProtoTimestamp { seconds, nanos })
}

#[test]
fn rx_timestamp_choice() {
    let none = RxTimes { time_since_gps_epoch: None, gw_time: None };
    assert_eq!(RxTimestampSource::Now, rx_timestamp_source(&[]));
    assert_eq!(RxTimestampSource::Now, rx_timestamp_source(&[none, none]));
    let with_gw = RxTimes { time_since_gps_epoch: None, gw_time: gw(1_700_000_000, 0) };
    let with_gps = RxTimes { time_since_gps_epoch: gps(1_000_000_000, 0), gw_time: None };
    assert_eq!(
        RxTimestampSource::GpsTime(2),
        rx_timestamp_source(&[none, with_gw, with_gps])
    );
    assert_eq!(
        RxTimestampSource::GatewayTime(1),
        rx_timestamp_source(&[none, with_gw, with_gw])
    );
    // A GPS time too large for a chrono duration, or a negative one read as
    // a huge unsigned number, is passed over.
    let too_big = RxTimes { time_since_gps_epoch: gps(-1, 0), gw_time: None };
    let just_fits = RxTimes {
        time_since_gps_epoch: gps(9_223_372_036_854_775, 807_000_000),
        gw_time: None,
    };
    let just_over = RxTimes {
        time_since_gps_epoch: gps(9_223_372_036_854_775, 807_000_001),
        gw_time: None,
    };
    assert_eq!(
        RxTimestampSource::GatewayTime(2),
        rx_timestamp_source(&[too_big, just_over, with_gw])
    );
    assert_eq!(RxTimestampSource::GpsTime(1), rx_timestamp_source(&[just_over, just_fits]));
    let bad_gw = RxTimes { time_since_gps_epoch: None, gw_time: gw(0, -5) };
    // The earliest time is picked, of equal times the first.
    let gw_2000 = RxTimes { time_since_gps_epoch: None, gw_time: gw(2000, 0) };
    let gw_1000 = RxTimes { time_since_gps_epoch: None, gw_time: gw(1000, 0) };
    assert_eq!(
        RxTimestampSource::GatewayTime(1),
        rx_timestamp_source(&[gw_2000, gw_1000, gw_1000, gw_2000])
    );
    let gw_1000_half = RxTimes { time_since_gps_epoch: None, gw_time: gw(1000, 500) };
    assert_eq!(RxTimestampSource::GatewayTime(1), rx_timestamp_source(&[gw_1000_half, gw_1000]));
    let gps_a = RxTimes { time_since_gps_epoch: gps(500, 2_000_000_000), gw_time: gw(1, 0) };
    let gps_b = RxTimes { time_since_gps_epoch: gps(501, 500), gw_time: None };
    let gps_c = RxTimes { time_since_gps_epoch: gps(600, 0), gw_time: None };
    // 500 s + 2 000 000 000 ns is 502 s, later than 501 s.
    assert_eq!(
        RxTimestampSource::GpsTime(2),
        rx_timestamp_source(&[gps_c, gps_a, gps_b, with_gw])
    );
    assert_eq!(RxTimestampSource::GatewayTime(1), rx_timestamp_source(&[bad_gw, with_gw]));
    assert_eq!(RxTimestampSource::Now, rx_timestamp_source(&[bad_gw]));
}

fn session(id: u8, validate_mic: bool, lifetime: Option<ProtoTimestamp>) -> PrDeviceSession {
    PrDeviceSession {
        session_id: vec![id],
        net_id: vec![0, 0, id],
        dev_addr: vec![1, 2, 3, 4],
        dev_eui: vec![],
        validate_mic,
        lorawan_1_1: false,
        f_nwk_s_int_key: vec![7; 16],
        f_cnt_up: 10,
        lifetime,
    }
}

#[test]
fn roaming_session_start() {
    assert!(needs_session_start(&[]));
    assert!(!needs_session_start(&[session(1, false, None)]));
    let kept = keep_started_sessions(vec![
        None,
        Some(session(1, false, None)),
        Some(session(2, false, gw(10, 0))),
        None,
        Some(session(3, true, gw(20, 0))),
    ]);
    assert_eq!(vec![session(2, false, gw(10, 0)), session(3, true, gw(20, 0))], kept);
    assert!(keep_started_sessions(vec![]).is_empty());
}

#[test]
fn roaming_session_mic_filter() {
    assert!(matches!(session_mic_check(&session(1, false, None), 11), Ok(MicCheck::Skip)));
    match session_mic_check(&session(1, true, None), 11) {
        Ok(MicCheck::Check { key, f_cnt, lorawan_1_1 }) => {
            assert_eq!([7; 16], key.to_bytes());
            assert_eq!(11, f_cnt);
            assert!(!lorawan_1_1);
        }
        other => panic!("expected a MIC check, got {:?}", other),
    }
    let mut short_key = session(1, true, None);
    short_key.f_nwk_s_int_key = vec![1, 2];
    assert!(matches!(session_mic_check(&short_key, 11), Err(LrwnError::Aes128Length)));
    let mut wrapped = session(1, true, None);
    wrapped.f_cnt_up = 65_536;
    match session_mic_check(&wrapped, 65_535) {
        Ok(MicCheck::Check { f_cnt, .. }) => assert_eq!(65_535, f_cnt),
        other => panic!("expected a MIC check, got {:?}", other),
    }

    let sessions = vec![session(1, true, None), session(2, false, None), session(3, true, None)];
    assert_eq!(
        vec![session(2, false, None), session(3, true, None)],
        select_sessions_by_mic(sessions.clone(), &[false, false, true])
    );
    assert_eq!(
        vec![session(1, true, None), session(2, false, None)],
        select_sessions_by_mic(sessions, &[true, true, false])
    );
}
