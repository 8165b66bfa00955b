//! Verified core of a LoRaWAN network server: key and identifier types,
//! storage-side validation rules, Redis key layout, and uplink helpers.
pub mod lorawan;
pub mod storage;
pub mod uplink;
pub mod stream;
pub mod utc;
