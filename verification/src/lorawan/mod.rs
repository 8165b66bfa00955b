//! LoRaWAN value types: AES-128 keys, EUI-64 identifiers and device addresses.
pub mod hexstr;
pub mod error;
pub mod aes128;

pub use aes128::AES128Key;
pub use error::Error;
pub mod eui64;
pub mod devaddr;

pub use devaddr::DevAddr;
pub use eui64::EUI64;
