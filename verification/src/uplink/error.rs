//! Errors of uplink handling.
use vstd::prelude::*;

verus! {

/// Why handling an uplink stopped.
#[derive(Debug, Clone, PartialEq, Eq)]
pub enum Error {
    /// Nothing else to do.
    Abort,
    /// Roaming is not allowed for the device.
    RoamingIsNotAllowed,
    /// No uplink channel of the region has the frequency and data-rate.
    UnknownChannel { frequency: u32, dr: u8 },
}

} // verus!
