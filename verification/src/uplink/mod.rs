//! Uplink handling: channel and time lookups, and the decisions of the
//! roaming and mesh flows.
pub mod error;
pub mod helpers;

pub use error::Error;
pub mod mesh;
pub mod roaming;
