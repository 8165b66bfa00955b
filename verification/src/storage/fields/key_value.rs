//! Free-form string tags and metadata of an object.
use std::collections::HashMap;

use vstd::prelude::*;

verus! {

/// A map from tag names to values.
#[derive(Debug)]
pub struct KeyValue(HashMap<String, String>);

impl View for KeyValue {
    type V = Map<String, String>;

    closed spec fn view(&self) -> Map<String, String> {
        self.0@
    }
}

impl Clone for KeyValue {
    fn clone(&self) -> (r: Self)
        ensures
            r@ == self@,
    {
        KeyValue(self.0.clone())
    }
}

impl KeyValue {
    /// The tags of the given map.
    pub fn new(m: HashMap<String, String>) -> (r: KeyValue)
        ensures
            r@ == m@,
    {
        KeyValue(m)
    }

    /// A copy of the tags as a map.
    pub fn into_hashmap(&self) -> (m: HashMap<String, String>)
        ensures
            m@ == self@,
    {
        self.0.clone()
    }
}

} // verus!
