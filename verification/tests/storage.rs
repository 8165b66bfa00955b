use std::collections::HashMap;

use chirpstack::lorawan::{DevAddr, Error as LrwnError, EUI64};
use chirpstack::storage::api_key::ApiKey;
use chirpstack::storage::device_keys::{validate_incr_join_and_store_dev_nonce, DeviceKeys};
use chirpstack::storage::device_queue::{get_next_for_dev_eui, DeviceQueueItem};
use chirpstack::storage::error::{deleted_or_not_found, Error};
use chirpstack::storage::fields::{
    DevNonces, KeyValue, Measurement, MeasurementKind, Measurements, MulticastGroupSchedulingType,
    Uuid,
};
use chirpstack::storage::keys;
use chirpstack::storage::device_gateway::{existing_payloads, rx_info_keys};
use chirpstack::storage::passive_roaming::{
    get_full_f_cnt_up, parse_session_ids, save_commands, save_commands_now, SaveError,
};
use chirpstack::storage::reads::{found_payload, stored_payload};
use chirpstack::utc::UtcTime;
use chirpstack::storage::redis_key;
use chirpstack::storage::relay::{validate_add_device, RelayDeviceFacts};
use chirpstack::storage::tenant::{Tenant, TenantUser};

fn eui(b: [u8; 8]) -> EUI64 {
    EUI64::from_be_bytes(b)
}

fn validation_message(r: Result<(), Error>) -> String {
    match r {
        Err(Error::Validation(msg)) => msg,
        other => panic!("expected a validation error, got {:?}", other),
    }
}

#[test]
fn test_prefix_no_prefix() {
    assert_eq!("lora:test:key", redis_key("", "lora:test:key".to_string()));
}

#[test]
fn test_prefix() {
    assert_eq!(
        "foobar:lora:test:key",
        redis_key("foobar:", "lora:test:key".to_string())
    );
}

#[test]
fn key_layout() {
    let d = eui([1, 2, 3, 4, 5, 6, 7, 8]);
    assert_eq!(
        "p:device:{0102030405060708}:gwrx",
        keys::device_gateway_rx_info_key("p:", &d)
    );
    assert_eq!(
        "device:{0102030405060708}:ds",
        keys::device_session_key("", &d)
    );
    assert_eq!("frame:12345", keys::downlink_frame_key("", 12345));
    assert_eq!("frame:0", keys::downlink_frame_key("", 0));
    assert_eq!(
        "device:0102030405060708:mac:pending:6",
        keys::mac_command_pending_key("", &d, 6)
    );
    assert_eq!(
        "pr:devaddr:{01020304}",
        keys::pr_dev_addr_key("", &DevAddr::from_be_bytes([1, 2, 3, 4]))
    );
    assert_eq!("pr:dev:{0102030405060708}", keys::pr_dev_eui_key("", &d));
    assert_eq!("x:pr:sess:{abc}", keys::pr_session_key("x:", "abc"));
    assert_eq!(
        "device:{0102030405060708}:stream:event",
        keys::device_event_stream_key("", "0102030405060708")
    );
    assert_eq!(
        "device:{0102030405060708}:stream:frame",
        keys::device_frame_stream_key("", "0102030405060708")
    );
    assert_eq!(
        "gw:{0102030405060708}:stream:frame",
        keys::gateway_frame_stream_key("", "0102030405060708")
    );
}

#[test]
fn eui64_and_devaddr() {
    let d = eui([1, 2, 3, 4, 5, 6, 7, 8]);
    assert_eq!(0x0102030405060708, d.to_u64());
    assert_eq!("0102030405060708", d.to_string());
    assert_eq!(d, EUI64::from_str("0102030405060708").unwrap());
    assert_eq!(d, EUI64::from_slice(&[1, 2, 3, 4, 5, 6, 7, 8]).unwrap());
    assert_eq!(Err(LrwnError::Eui64Length), EUI64::from_slice(&[1, 2, 3]));
    assert!(EUI64::from_str("").is_err());
    let a = DevAddr::from_slice(&[0xaa, 0xbb, 0xcc, 0xdd]).unwrap();
    assert_eq!("aabbccdd", a.to_string());
    assert_eq!(a, DevAddr::from_str("AABBCCDD").unwrap());
    assert_eq!(Err(LrwnError::DevAddrLength), DevAddr::from_slice(&[1]));
}

#[test]
fn dev_nonces_contains_insert() {
    let j1 = eui([1, 1, 1, 1, 1, 1, 1, 1]);
    let j2 = eui([2, 2, 2, 2, 2, 2, 2, 2]);
    let mut n = DevNonces::new();
    assert!(!n.contains(j1, 10));
    n.insert(j1, 10);
    n.insert(j1, 11);
    assert!(n.contains(j1, 10));
    assert!(n.contains(j1, 11));
    assert!(!n.contains(j2, 10));
    n.insert(j2, 10);
    assert!(n.contains(j2, 10));
    assert!(n.contains(j1, 10));
}

#[test]
fn dev_nonce_replay_is_refused() {
    let join_eui = eui([1, 2, 3, 4, 5, 6, 7, 8]);
    let dk = DeviceKeys::new(1000);
    assert_eq!(0, dk.join_nonce);
    let dk = validate_incr_join_and_store_dev_nonce(dk, join_eui, 258, 2000).unwrap();
    assert_eq!(1, dk.join_nonce);
    assert_eq!(2000, dk.updated_at);
    assert_eq!(1000, dk.created_at);
    assert!(dk.dev_nonces.contains(join_eui, 258));
    match validate_incr_join_and_store_dev_nonce(dk, join_eui, 258, 3000) {
        Err(Error::InvalidDevNonce) => {}
        other => panic!("expected InvalidDevNonce, got {:?}", other),
    }
}

#[test]
fn dev_nonce_other_join_eui_is_accepted() {
    let dk = DeviceKeys::new(0);
    let dk = validate_incr_join_and_store_dev_nonce(dk, eui([1; 8]), 7, 1).unwrap();
    let dk = validate_incr_join_and_store_dev_nonce(dk, eui([2; 8]), 7, 2).unwrap();
    let dk = validate_incr_join_and_store_dev_nonce(dk, eui([2; 8]), 8, 3).unwrap();
    assert_eq!(3, dk.join_nonce);
}

#[test]
fn queue_item_validation() {
    let mut qi = DeviceQueueItem::new(1, 0);
    qi.data = vec![0x01, 0x02, 0x03];
    assert_eq!("FPort must be between 1 - 255", validation_message(qi.validate()));
    qi.f_port = 256;
    assert_eq!("FPort must be between 1 - 255", validation_message(qi.validate()));
    qi.f_port = 10;
    assert!(qi.validate().is_ok());
    qi.is_encrypted = true;
    assert_eq!(
        "FCntDown must be set for encrypted queue-items",
        validation_message(qi.validate())
    );
    qi.f_cnt_down = Some(10);
    assert!(qi.validate().is_ok());
}

#[test]
fn queue_next_item() {
    let d = eui([1, 2, 3, 4, 5, 6, 7, 8]);
    match get_next_for_dev_eui(&d, vec![], 0) {
        Err(Error::NotFound(id)) => assert_eq!("0102030405060708", id),
        other => panic!("unexpected {:?}", other),
    }

    let mut a = DeviceQueueItem::new(1, 10);
    a.f_port = 10;
    let b = DeviceQueueItem::new(2, 20);
    let (first, more) = get_next_for_dev_eui(&d, vec![a, b], 100).unwrap();
    assert_eq!(1, first.id);
    assert!(more);

    let mut a = DeviceQueueItem::new(1, 10);
    a.is_pending = true;
    a.timeout_after = Some(200);
    assert!(matches!(
        get_next_for_dev_eui(&d, vec![a], 100),
        Err(Error::NotFound(_))
    ));

    let mut a = DeviceQueueItem::new(1, 10);
    a.is_pending = true;
    a.timeout_after = Some(50);
    let (first, more) = get_next_for_dev_eui(&d, vec![a], 100).unwrap();
    assert_eq!(1, first.id);
    assert!(!more);
}

#[test]
fn api_key_and_tenant_validation() {
    let mut ak = ApiKey::new(7, 100);
    assert_eq!("name is not set", validation_message(ak.validate()));
    ak.name = "test api key".into();
    assert!(ak.validate().is_ok());

    let mut t = Tenant::new(8, 100);
    assert_eq!("name is not set", validation_message(t.validate()));
    t.name = "tenant".into();
    assert!(t.validate().is_ok());
    assert!(t.tags.into_hashmap().is_empty());

    let tu = TenantUser::new(5);
    assert_eq!(0, tu.tenant_id);
    assert!(!tu.is_admin);
}

#[test]
fn relay_add_device_rules() {
    let relay = RelayDeviceFacts {
        application_id: 1,
        region: "eu868".into(),
        is_relay: true,
    };
    let dev = RelayDeviceFacts {
        application_id: 1,
        region: "eu868".into(),
        is_relay: false,
    };
    assert!(validate_add_device(&relay, &dev, 0).is_ok());
    assert!(validate_add_device(&relay, &dev, 14).is_ok());
    assert_eq!(
        "Max number of devices that can be added to a relay is 15",
        validation_message(validate_add_device(&relay, &dev, 15))
    );
    assert_eq!(
        "Max number of devices that can be added to a relay is 15",
        validation_message(validate_add_device(&relay, &dev, 16))
    );
    assert_eq!(
        "Device is not a relay",
        validation_message(validate_add_device(&dev, &dev, 0))
    );
    let other_app = RelayDeviceFacts {
        application_id: 2,
        ..dev.clone()
    };
    assert_eq!(
        "Relay and device must be under the same application",
        validation_message(validate_add_device(&relay, &other_app, 0))
    );
    let other_region = RelayDeviceFacts {
        region: "us915".into(),
        ..dev.clone()
    };
    assert_eq!(
        "Relay and device must be under the same region",
        validation_message(validate_add_device(&relay, &other_region, 0))
    );
    assert_eq!(
        "Can not add relay to a relay",
        validation_message(validate_add_device(&relay, &relay, 0))
    );
}

#[test]
fn full_f_cnt_up() {
    // same counter
    assert_eq!(10, get_full_f_cnt_up(10, 10));
    // re-transmission
    assert_eq!(9, get_full_f_cnt_up(10, 9));
    // gap
    assert_eq!(15, get_full_f_cnt_up(10, 15));
    // rollover of the 16 bits
    assert_eq!(65536 + 2, get_full_f_cnt_up(65535, 2));
    assert_eq!(65535, get_full_f_cnt_up(65536, 65535));
    // rollover of the 32 bits
    assert_eq!(0, get_full_f_cnt_up(u32::MAX, 0));
}

#[test]
fn multicast_scheduling_type_names() {
    assert_eq!("DELAY", MulticastGroupSchedulingType::DELAY.to_string());
    assert_eq!("GPS_TIME", MulticastGroupSchedulingType::GPS_TIME.to_string());
    assert_eq!(
        Ok(MulticastGroupSchedulingType::GPS_TIME),
        MulticastGroupSchedulingType::from_str("GPS_TIME")
    );
    assert_eq!(
        Ok(MulticastGroupSchedulingType::DELAY),
        MulticastGroupSchedulingType::from_str(&MulticastGroupSchedulingType::DELAY.to_string())
    );
    assert_eq!(
        Err("Unexpected MulticastGroupSchedulingType: delay".to_string()),
        MulticastGroupSchedulingType::from_str("delay")
    );
}

#[test]
fn key_value_and_measurements() {
    let mut m = HashMap::new();
    m.insert("foo".to_string(), "bar".to_string());
    let kv = KeyValue::new(m.clone());
    assert_eq!(m, kv.into_hashmap());

    let mut mm = HashMap::new();
    mm.insert(
        "temp".to_string(),
        Measurement {
            name: "Temperature".to_string(),
            kind: MeasurementKind::GAUGE,
        },
    );
    let ms = Measurements::new(mm.clone());
    assert_eq!(mm, ms.into_hashmap());
}

#[test]
fn from_diesel_maps_not_found() {
    match Error::from_diesel(diesel::result::Error::NotFound, "abc".to_string()) {
        Error::NotFound(id) => assert_eq!("abc", id),
        other => panic!("unexpected {:?}", other),
    }
    match Error::from_diesel(diesel::result::Error::RollbackTransaction, "abc".to_string()) {
        Error::Diesel(diesel::result::Error::RollbackTransaction) => {}
        other => panic!("unexpected {:?}", other),
    }
}

#[test]
fn tenant_search_pattern() {
    assert_eq!("%foo%", chirpstack::storage::tenant::search_pattern("foo"));
    assert_eq!("%%", chirpstack::storage::tenant::search_pattern(""));
}

#[test]
fn rx_info_keys_and_payloads() {
    let keys = rx_info_keys("p:", &[eui([1; 8]), eui([2; 8])]);
    assert_eq!(
        vec![
            "p:device:{0101010101010101}:gwrx".to_string(),
            "p:device:{0202020202020202}:gwrx".to_string()
        ],
        keys
    );
    assert!(rx_info_keys("", &[]).is_empty());
    assert_eq!(
        vec![vec![1u8], vec![2, 3]],
        existing_payloads(vec![vec![], vec![1], vec![], vec![2, 3]])
    );
}

#[test]
fn passive_roaming_save_commands() {
    let sess = [
        0x52, 0xf1, 0x4c, 0xd4, 0xc6, 0xf1, 0x4f, 0xbd, 0x8f, 0x87, 0x40, 0x25, 0xe1, 0xd4, 0x92,
        0x42,
    ];
    let now = UtcTime { secs: 1000, nanos: 0 };
    let later = Some((1010i64, 500_000_000i32));
    let c = save_commands("", &sess, &[1, 2, 3, 4], &[], later, now)
        .unwrap()
        .unwrap();
    assert_eq!("52f14cd4-c6f1-4fbd-8f87-4025e1d49242", c.session_id);
    assert_eq!("pr:sess:{52f14cd4-c6f1-4fbd-8f87-4025e1d49242}", c.sess_key);
    assert_eq!("pr:devaddr:{01020304}", c.dev_addr_key);
    assert_eq!("pr:dev:{0000000000000000}", c.dev_eui_key);
    assert_eq!(10_500, c.pr_ttl_ms);

    let c = save_commands("", &sess, &[1, 2, 3, 4], &[1, 2, 3, 4, 5, 6, 7, 8], later, now)
        .unwrap()
        .unwrap();
    assert_eq!("pr:dev:{0102030405060708}", c.dev_eui_key);

    assert_eq!(
        Ok(None),
        save_commands("", &sess, &[1, 2, 3, 4], &[], None, now)
    );
    assert_eq!(
        Ok(None),
        save_commands("", &sess, &[1, 2, 3, 4], &[], Some((1000, 0)), now)
    );
    assert_eq!(
        Ok(None),
        save_commands("", &sess, &[1, 2, 3, 4], &[], Some((999, 999_999_999)), now)
    );
    // Half a millisecond left: stored, for zero whole milliseconds.
    assert_eq!(
        0,
        save_commands("", &sess, &[1, 2, 3, 4], &[], Some((1000, 500_000)), now)
            .unwrap()
            .unwrap()
            .pr_ttl_ms
    );
    assert_eq!(
        Err(SaveError::InvalidLifetime(
            "out of range integral type conversion attempted".to_string()
        )),
        save_commands("", &sess, &[1, 2, 3, 4], &[], Some((1010, -1)), now)
    );
    assert_eq!(
        Err(SaveError::InvalidLifetime("invalid or out-of-range datetime".to_string())),
        save_commands("", &sess, &[1, 2, 3, 4], &[], Some((i64::MAX, 0)), now)
    );
    // A year past what a UTC date-time holds is refused, as is a leap
    // second outside the last second of a minute.
    assert!(save_commands("", &sess, &[1, 2, 3, 4], &[], Some((8_300_000_000_000, 0)), now).is_err());
    assert!(save_commands("", &sess, &[1, 2, 3, 4], &[], Some((1010, 1_500_000_000)), now).is_err());
    assert!(save_commands("", &sess, &[1, 2, 3, 4], &[], Some((1019, 1_500_000_000)), now).is_ok());
    assert_eq!(
        Err(SaveError::SessionIdLength),
        save_commands("", &[1, 2], &[1, 2, 3, 4], &[], Some((i64::MAX, 0)), now)
    );
    let far = Some((4_102_444_800i64, 0i32));
    let (outcome, now_read) = save_commands_now("p:", &sess, &[1, 2, 3, 4], &[], far);
    let c = outcome.unwrap().unwrap();
    assert!(now_read.secs > 1_600_000_000);
    let ms_left = ((4_102_444_800 - now_read.secs) as i128 * 1_000_000_000
        - now_read.nanos as i128)
        / 1_000_000;
    assert_eq!(ms_left as u64, c.pr_ttl_ms);
    assert_eq!("p:pr:sess:{52f14cd4-c6f1-4fbd-8f87-4025e1d49242}", c.sess_key);
    assert!(c.pr_ttl_ms > 0);
    assert_eq!(Ok(None), save_commands_now("", &sess, &[1, 2, 3, 4], &[], Some((0, 0))).0);
    assert_eq!(
        Err(SaveError::SessionIdLength),
        save_commands("", &[1, 2], &[1, 2, 3, 4], &[], later, now)
    );
    assert_eq!(
        Err(SaveError::Lrwn(LrwnError::DevAddrLength)),
        save_commands("", &sess, &[1, 2, 3], &[], later, now)
    );
    assert_eq!(
        Err(SaveError::Lrwn(LrwnError::Eui64Length)),
        save_commands("", &sess, &[1, 2, 3, 4], &[1], later, now)
    );
}

#[test]
fn session_ids_are_read_back() {
    let ids = vec![
        "00112233-4455-6677-8899-aabbccddeeff".to_string(),
        "01020304-0506-0708-090a-0b0c0d0e0f10".to_string(),
    ];
    assert_eq!(
        Ok(vec![
            0x00112233_4455_6677_8899_aabbccddeeffu128,
            0x01020304_0506_0708_090a_0b0c0d0e0f10u128,
        ]),
        parse_session_ids(&ids)
    );
    assert_eq!(Ok(vec![]), parse_session_ids(&[]));
    let bad = vec![
        "00112233-4455-6677-8899-aabbccddeeff".to_string(),
        "not-a-uuid".to_string(),
        "also bad".to_string(),
    ];
    assert_eq!(Err(1), parse_session_ids(&bad));
}

#[test]
fn session_id_written_by_save_is_read_back() {
    let sid: Vec<u8> = (1..=16).collect();
    let now = UtcTime { secs: 1_000, nanos: 0 };
    let lifetime = Some((1_010i64, 0i32));
    let c = save_commands("", &sid, &[1, 2, 3, 4], &[], lifetime, now)
        .unwrap()
        .unwrap();
    assert_eq!(
        Ok(vec![0x0102030405060708090a0b0c0d0e0f10u128]),
        parse_session_ids(&[c.session_id])
    );
}

#[test]
fn empty_reads_are_missing_payloads() {
    assert_eq!(None, stored_payload(vec![]));
    assert_eq!(Some(vec![1, 2]), stored_payload(vec![1, 2]));
    assert_eq!(vec![7], found_payload(vec![7], "x".to_string()).unwrap());
    match found_payload(vec![], "0102030405060708".to_string()) {
        Err(Error::NotFound(id)) => assert_eq!("0102030405060708", id),
        other => panic!("expected NotFound, got {:?}", other),
    }
}

#[test]
fn uuid_text_roundtrip() {
    let u = Uuid::from_u128(0x936da01f_9abd_4d9d_80c7_02af85c822a8);
    assert_eq!("936da01f-9abd-4d9d-80c7-02af85c822a8", u.to_string());
    assert_eq!(Some(u), Uuid::parse_str("936da01f-9abd-4d9d-80c7-02af85c822a8"));
    assert_eq!(Some(u), Uuid::parse_str("936DA01F9ABD4D9D80C702AF85C822A8"));
    assert_eq!(None, Uuid::parse_str("936da01f"));
    assert_eq!(0u128, Uuid::parse_str("00000000-0000-0000-0000-000000000000").unwrap().as_u128());
}

#[test]
fn identifier_text_roundtrip() {
    for b in [[0u8; 8], [0xff; 8], [0xde, 0xad, 0xbe, 0xef, 0x00, 0x01, 0x02, 0x03]] {
        let e = eui(b);
        assert_eq!(e, EUI64::from_str(&e.to_string()).unwrap());
    }
    for b in [[0u8; 4], [0x12, 0x34, 0xab, 0xcd]] {
        let a = DevAddr::from_be_bytes(b);
        assert_eq!(a, DevAddr::from_str(&a.to_string()).unwrap());
    }
}

#[test]
fn delete_of_missing_object_is_not_found() {
    assert!(deleted_or_not_found(1, "a".to_string()).is_ok());
    assert!(deleted_or_not_found(3, "a".to_string()).is_ok());
    match deleted_or_not_found(0, "52f14cd4-c6f1-4fbd-8f87-4025e1d49242".to_string()) {
        Err(Error::NotFound(id)) => assert_eq!("52f14cd4-c6f1-4fbd-8f87-4025e1d49242", id),
        other => panic!("expected NotFound, got {:?}", other),
    }
}

#[test]
fn different_devices_have_different_keys() {
    let a = eui([1, 2, 3, 4, 5, 6, 7, 8]);
    let b = eui([1, 2, 3, 4, 5, 6, 7, 9]);
    assert_ne!(keys::device_session_key("p:", &a), keys::device_session_key("p:", &b));
    assert_ne!(
        keys::device_gateway_rx_info_key("p:", &a),
        keys::device_gateway_rx_info_key("p:", &b)
    );
    assert_ne!(
        keys::mac_command_pending_key("p:", &a, 3),
        keys::mac_command_pending_key("p:", &b, 3)
    );
    let x = DevAddr::from_be_bytes([1, 2, 3, 4]);
    let y = DevAddr::from_be_bytes([1, 2, 3, 5]);
    assert_ne!(keys::pr_dev_addr_key("", &x), keys::pr_dev_addr_key("", &y));
}

#[test]
fn storage_error_messages() {
    assert_eq!(
        "Object does not exist (id: abc)",
        Error::from_diesel(diesel::result::Error::NotFound, "abc".to_string()).to_string()
    );
    assert_eq!(
        "You have asked diesel to rollback the transaction",
        Error::from_diesel(diesel::result::Error::RollbackTransaction, "abc".to_string())
            .to_string()
    );
    assert_eq!("Record not found", Error::Diesel(diesel::result::Error::NotFound).to_string());
    assert_eq!("Object already exists (id: x)", Error::AlreadyExists("x".into()).to_string());
    assert_eq!("Invalid email address format", Error::InvalidEmail.to_string());
    assert_eq!("Hash password error (error: e)", Error::HashPassword("e".into()).to_string());
    assert_eq!("Invalid username or password", Error::InvalidUsernameOrPassword.to_string());
    assert_eq!("Invalid type (expected: MacPayload)", Error::InvalidPayload("MacPayload".into()).to_string());
    assert_eq!("Invalid MIC", Error::InvalidMIC.to_string());
    assert_eq!("Invalid DevNonce", Error::InvalidDevNonce.to_string());
    assert_eq!("Validation error: name is not set", Error::Validation("name is not set".into()).to_string());
    assert_eq!("Not allowed (x)", Error::NotAllowed("x".into()).to_string());
    assert_eq!("Aes128Length", Error::Lrwn(LrwnError::Aes128Length).to_string());
    assert_eq!(
        "Odd number of digits",
        Error::Lrwn(LrwnError::FromHex(chirpstack::lorawan::hexstr::HexError::OddLength)).to_string()
    );
    assert_eq!(
        "Invalid character 'g' at position 3",
        Error::Lrwn(LrwnError::FromHex(chirpstack::lorawan::hexstr::HexError::InvalidHexCharacter {
            c: 'g',
            index: 3
        }))
        .to_string()
    );
}
