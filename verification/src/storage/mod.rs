//! Storage-side rules: Redis key layout, the field types kept in the database,
//! and the validation that happens before rows are written.
pub mod api_key;
pub mod database;
pub mod device_gateway;
pub mod device_keys;
pub mod device_queue;
pub mod error;
pub mod fields;
pub mod keys;
pub mod passive_roaming;
pub mod reads;
pub mod relay;
pub mod tenant;

pub use keys::redis_key;
