use chirpstack::lorawan::hexstr::HexError;
use chirpstack::lorawan::{AES128Key, Error};

fn key_0102() -> AES128Key {
    AES128Key::from_bytes([
        0x01, 0x02, 0x03, 0x04, 0x05, 0x06, 0x07, 0x08, 0x01, 0x02, 0x03, 0x04, 0x05, 0x06, 0x07,
        0x08,
    ])
}

#[test]
fn test_to_string() {
    let key = key_0102();
    assert_eq!("01020304050607080102030405060708", key.to_string());
}

#[test]
fn test_from_str() {
    let key = key_0102();
    assert_eq!(
        key,
        AES128Key::from_str("01020304050607080102030405060708").unwrap()
    );
}

#[test]
fn test_encrypt_decrypt() {
    let key = key_0102();

    let mut data = [
        0x10, 0x20, 0x30, 0x40, 0x50, 0x60, 0x70, 0x80, 0x90, 0xA0, 0xB0, 0xC0, 0xD0, 0xE0, 0xF0,
        0x00,
    ];
    let plain_data = data;

    key.encrypt(&mut data);
    assert_ne!(data, plain_data);

    key.decrypt(&mut data);
    assert_eq!(data, plain_data);
}

#[test]
fn aes_encrypt_is_bytewise_xor() {
    let key = key_0102();
    let mut data = [0xffu8; 16];
    key.encrypt(&mut data);
    assert_eq!(
        data,
        [
            0xfe, 0xfd, 0xfc, 0xfb, 0xfa, 0xf9, 0xf8, 0xf7, 0xfe, 0xfd, 0xfc, 0xfb, 0xfa, 0xf9,
            0xf8, 0xf7
        ]
    );
}

#[test]
fn aes_different_keys_encrypt_differently() {
    let k1 = key_0102();
    let mut b = k1.to_bytes();
    b[3] ^= 1 << 5;
    let k2 = AES128Key::from_bytes(b);
    let mut d1 = [0x33u8; 16];
    let mut d2 = [0x33u8; 16];
    k1.encrypt(&mut d1);
    k2.encrypt(&mut d2);
    assert_ne!(d1, d2);
}

#[test]
fn aes_string_roundtrip() {
    let key = AES128Key::from_bytes([
        0xde, 0xad, 0xbe, 0xef, 0x00, 0x11, 0x22, 0x33, 0x44, 0x55, 0x66, 0x77, 0x88, 0x99, 0xaa,
        0xbb,
    ]);
    let s = key.to_string();
    assert_eq!("deadbeef00112233445566778899aabb", s);
    assert_eq!(key, AES128Key::from_str(&s).unwrap());
}

#[test]
fn aes_from_str_accepts_upper_case() {
    let key = AES128Key::from_str("DEADBEEF00112233445566778899AABB").unwrap();
    assert_eq!("deadbeef00112233445566778899aabb", key.to_string());
}

#[test]
fn aes_from_str_empty_is_null() {
    assert_eq!(AES128Key::null(), AES128Key::from_str("").unwrap());
}

#[test]
fn aes_from_str_errors() {
    assert_eq!(
        Err(Error::FromHex(HexError::OddLength)),
        AES128Key::from_str("010")
    );
    assert_eq!(
        Err(Error::FromHex(HexError::InvalidStringLength)),
        AES128Key::from_str("0102")
    );
    assert_eq!(
        Err(Error::FromHex(HexError::InvalidHexCharacter { c: 'g', index: 3 })),
        AES128Key::from_str("010g0304050607080102030405060708")
    );
}

#[test]
fn aes_from_slice() {
    let key = key_0102();
    assert_eq!(key, AES128Key::from_slice(&key.to_vec()).unwrap());
    assert_eq!(Err(Error::Aes128Length), AES128Key::from_slice(&[1, 2, 3]));
    assert_eq!(16, key.to_vec().len());
}
