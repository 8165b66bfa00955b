//! Field types that the storage layer keeps in database columns.
pub mod dev_nonces;

pub use dev_nonces::DevNonces;
pub mod key_value;
pub mod measurements;
pub mod multicast_group_scheduling_type;

pub use key_value::KeyValue;
pub use measurements::{Measurement, MeasurementKind, Measurements};
pub use multicast_group_scheduling_type::MulticastGroupSchedulingType;
pub mod uuid;

pub use self::uuid::Uuid;
