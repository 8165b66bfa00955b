//! The gateways that last received a device, kept in Redis per device.
use vstd::prelude::*;

use super::keys::device_gateway_rx_info_key;
use crate::lorawan::hexstr::hex_encode_spec;
use crate::lorawan::EUI64;

verus! {

/// The keys under which the rx-info of the devices is stored, in the order
/// of the devices.
pub fn rx_info_keys(prefix: &str, dev_euis: &[EUI64]) -> (r: Vec<String>)
    ensures
        r@.len() == dev_euis@.len(),
        forall|i: int|
            0 <= i < r@.len() ==> (#[trigger] r@[i])@ == prefix@ + "device:{"@ + hex_encode_spec(
                dev_euis@[i]@,
            ) + "}:gwrx"@,
{
    let mut r: Vec<String> = Vec::new();
    let mut i: usize = 0;
    while i < dev_euis.len()
        invariant
            0 <= i <= dev_euis@.len(),
            r@.len() == i,
            forall|j: int|
                0 <= j < i ==> (#[trigger] r@[j])@ == prefix@ + "device:{"@ + hex_encode_spec(
                    dev_euis@[j]@,
                ) + "}:gwrx"@,
        decreases dev_euis@.len() - i,
    {
        r.push(device_gateway_rx_info_key(prefix, &dev_euis[i]));
        i = i + 1;
    }
    r
}

/// The stored rx-info payloads that exist: a device without rx-info reads as
/// an empty payload and is left out. The order is kept.
pub fn existing_payloads(payloads: Vec<Vec<u8>>) -> (r: Vec<Vec<u8>>)
    ensures
        r@ == payloads@.filter(|b: Vec<u8>| b@.len() > 0),
{
    let ghost all = payloads@;
    let mut r: Vec<Vec<u8>> = Vec::new();
    let mut rest = payloads;
    let ghost mut k: int = 0;
    while rest.len() > 0
        invariant
            0 <= k <= all.len(),
            rest@ == all.subrange(k, all.len() as int),
            r@ == all.take(k).filter(|b: Vec<u8>| b@.len() > 0),
        decreases rest@.len(),
    {
        let x = rest.remove(0);
        proof {
            assert(x == all[k]);
            assert(all.take(k + 1).drop_last() =~= all.take(k));
            reveal_with_fuel(Seq::<Vec<u8>>::filter, 1);
            k = k + 1;
        }
        if x.len() > 0 {
            r.push(x);
        }
        assert(rest@ =~= all.subrange(k, all.len() as int));
    }
    assert(all.take(k) =~= all);
    r
}

} // verus!
