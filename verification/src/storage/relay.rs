//! Relays and the end-devices that they relay for.
use vstd::prelude::*;

use super::error::Error;

verus! {

/// The most devices a relay holds. The relay's filter list has 16 entries,
/// one of which must be the catch-all entry that filters the uplinks
/// matching no other entry.
pub const RELAY_MAX_DEVICES: i64 = 15;

/// What adding a device to a relay checks of each of the two devices.
#[derive(Debug, Clone, PartialEq, Eq)]
pub struct RelayDeviceFacts {
    /// The 128-bit value of the UUID of the device's application.
    pub application_id: u128,
    /// The region of the device's profile.
    pub region: String,
    /// The device's profile is a relay profile.
    pub is_relay: bool,
}

/// The message of the first check that adding the device to the relay fails,
/// given the number of devices already under the relay; `None` when all pass.
pub open spec fn add_device_refusal(
    relay: RelayDeviceFacts,
    device: RelayDeviceFacts,
    count: i64,
) -> Option<Seq<char>> {
    if !relay.is_relay {
        Some("Device is not a relay"@)
    } else if relay.application_id != device.application_id {
        Some("Relay and device must be under the same application"@)
    } else if relay.region@ != device.region@ {
        Some("Relay and device must be under the same region"@)
    } else if device.is_relay {
        Some("Can not add relay to a relay"@)
    } else if count >= RELAY_MAX_DEVICES {
        Some("Max number of devices that can be added to a relay is 15"@)
    } else {
        None
    }
}

/// Checks that a device may be added to a relay, in this order: the relay
/// has a relay profile, both are under the same application and the same
/// region, the device is no relay itself, and the relay holds fewer than
/// `RELAY_MAX_DEVICES` devices yet.
pub fn validate_add_device(relay: &RelayDeviceFacts, device: &RelayDeviceFacts, count: i64) -> (r:
    Result<(), Error>)
    ensures
        r is Ok <==> add_device_refusal(*relay, *device, count) is None,
        r matches Err(e) ==> e matches Error::Validation(msg) && Some(msg@) == add_device_refusal(
            *relay,
            *device,
            count,
        ),
{
    if !relay.is_relay {
        return Err(Error::Validation("Device is not a relay".to_owned()));
    }
    if relay.application_id != device.application_id {
        return Err(
            Error::Validation("Relay and device must be under the same application".to_owned()),
        );
    }
    if relay.region != device.region {
        return Err(Error::Validation("Relay and device must be under the same region".to_owned()));
    }
    if device.is_relay {
        return Err(Error::Validation("Can not add relay to a relay".to_owned()));
    }
    if count >= RELAY_MAX_DEVICES {
        return Err(
            Error::Validation(
                "Max number of devices that can be added to a relay is 15".to_owned(),
            ),
        );
    }
    Ok(())
}

/// A device is only added to a relay that holds fewer than
/// `RELAY_MAX_DEVICES` devices, so a relay never holds more than
/// `RELAY_MAX_DEVICES` devices.
pub proof fn lemma_accepted_add_within_bound(relay: RelayDeviceFacts, device: RelayDeviceFacts, count: i64)
    requires
        add_device_refusal(relay, device, count) is None,
    ensures
        count + 1 <= RELAY_MAX_DEVICES,
{
}

} // verus!
