//! The DevNonces that each JoinEUI has used, kept to refuse replayed joins.
use std::collections::HashMap;

use vstd::prelude::*;

use crate::lorawan::eui64::{be_u64, lemma_be_u64_injective};
use crate::lorawan::EUI64;

verus! {

broadcast use vstd::std_specs::hash::group_hash_axioms;

/// The DevNonces used so far, per JoinEUI (keyed by the JoinEUI read as a
/// big-endian integer).
#[derive(Debug, Default)]
pub struct DevNonces(HashMap<u64, Vec<u16>>);

/// The nonces of `join_eui` in the map `m`, in the order they were used.
pub open spec fn nonces_of(m: Map<u64, Seq<u16>>, join_eui: u64) -> Seq<u16> {
    if m.contains_key(join_eui) {
        m[join_eui]
    } else {
        Seq::empty()
    }
}

impl View for DevNonces {
    type V = Map<u64, Seq<u16>>;

    closed spec fn view(&self) -> Map<u64, Seq<u16>> {
        Map::new(|k: u64| self.0@.contains_key(k), |k: u64| self.0@[k]@)
    }
}

impl Clone for DevNonces {
    fn clone(&self) -> (r: Self)
        ensures
            r@ == self@,
    {
        DevNonces(self.0.clone())
    }
}

impl DevNonces {
    /// The nonces used with `join_eui`.
    pub open spec fn spec_nonces(&self, join_eui: EUI64) -> Seq<u16> {
        nonces_of(self@, be_u64(join_eui@))
    }

    /// Whether `dev_nonce` was used before with `join_eui`.
    pub open spec fn spec_contains(&self, join_eui: EUI64, dev_nonce: u16) -> bool {
        self.spec_nonces(join_eui).contains(dev_nonce)
    }

    /// No nonce has been used yet.
    pub fn new() -> (r: DevNonces)
        ensures
            r@ == Map::<u64, Seq<u16>>::empty(),
    {
        let r = DevNonces(HashMap::new());
        assert(r@ =~= Map::<u64, Seq<u16>>::empty());
        r
    }

    /// Whether `dev_nonce` was used before with `join_eui`.
    pub fn contains(&self, join_eui: EUI64, dev_nonce: u16) -> (r: bool)
        ensures
            r == self.spec_contains(join_eui, dev_nonce),
    {
        let key = join_eui.to_u64();
        match self.0.get(&key) {
            Some(v) => {
                assert(v@ == self.spec_nonces(join_eui));
                let mut i: usize = 0;
                while i < v.len()
                    invariant
                        0 <= i <= v@.len(),
                        forall|j: int| 0 <= j < i ==> v@[j] != dev_nonce,
                        v@ == self.spec_nonces(join_eui),
                    decreases v@.len() - i,
                {
                    if v[i] == dev_nonce {
                        assert(self.spec_nonces(join_eui)[i as int] == dev_nonce);
                        return true;
                    }
                    i = i + 1;
                }
                false
            },
            None => false,
        }
    }

    /// Records that `dev_nonce` was used with `join_eui`; the nonces of the
    /// other JoinEUIs stay as they were.
    pub fn insert(&mut self, join_eui: EUI64, dev_nonce: u16)
        ensures
            final(self)@ == old(self)@.insert(
                be_u64(join_eui@),
                old(self).spec_nonces(join_eui).push(dev_nonce),
            ),
    {
        let key = join_eui.to_u64();
        let mut v: Vec<u16> = match self.0.remove(&key) {
            Some(v) => v,
            None => Vec::new(),
        };
        v.push(dev_nonce);
        self.0.insert(key, v);
        assert(self@ =~= old(self)@.insert(
            be_u64(join_eui@),
            old(self).spec_nonces(join_eui).push(dev_nonce),
        ));
    }
}

/// After a nonce is recorded for a JoinEUI, it counts as used for it.
pub proof fn lemma_insert_then_contains(before: DevNonces, after: DevNonces, join_eui: EUI64, dev_nonce: u16)
    requires
        after@ == before@.insert(
            be_u64(join_eui@),
            before.spec_nonces(join_eui).push(dev_nonce),
        ),
    ensures
        after.spec_contains(join_eui, dev_nonce),
{
    let s = before.spec_nonces(join_eui).push(dev_nonce);
    assert(after.spec_nonces(join_eui) == s);
    assert(s[s.len() - 1] == dev_nonce);
}

/// Recording a nonce forgets no nonce: whatever was used before, for any
/// JoinEUI, still counts as used.
pub proof fn lemma_insert_keeps_used(
    before: DevNonces,
    after: DevNonces,
    join_eui: EUI64,
    dev_nonce: u16,
    other_eui: EUI64,
    other_nonce: u16,
)
    requires
        after@ == before@.insert(
            be_u64(join_eui@),
            before.spec_nonces(join_eui).push(dev_nonce),
        ),
        before.spec_contains(other_eui, other_nonce),
    ensures
        after.spec_contains(other_eui, other_nonce),
{
    let old_s = before.spec_nonces(other_eui);
    let i = choose|i: int| 0 <= i < old_s.len() && old_s[i] == other_nonce;
    if be_u64(other_eui@) == be_u64(join_eui@) {
        assert(after.spec_nonces(other_eui)[i] == other_nonce);
    } else {
        assert(after.spec_nonces(other_eui) == old_s);
    }
}

/// Recording a nonce for one JoinEUI leaves the nonces of every other
/// JoinEUI as they were: the same DevNonce stays free for another JoinEUI.
pub proof fn lemma_insert_keeps_other_join_euis(
    before: DevNonces,
    after: DevNonces,
    join_eui: EUI64,
    dev_nonce: u16,
    other_eui: EUI64,
)
    requires
        after@ == before@.insert(
            be_u64(join_eui@),
            before.spec_nonces(join_eui).push(dev_nonce),
        ),
        other_eui@ != join_eui@,
    ensures
        after.spec_nonces(other_eui) == before.spec_nonces(other_eui),
{
    if be_u64(other_eui@) == be_u64(join_eui@) {
        lemma_be_u64_injective(other_eui, join_eui);
    }
}

} // verus!
