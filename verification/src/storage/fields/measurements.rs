//! The measurements that a device profile declares for decoded payloads.
use std::collections::HashMap;

use vstd::prelude::*;

verus! {

/// One declared measurement: its display name and how its values behave.
#[derive(Debug, Clone, PartialEq, Eq)]
pub struct Measurement {
    pub name: String,
    pub kind: MeasurementKind,
}

/// How the values of a measurement behave.
#[allow(clippy::upper_case_acronyms)]
#[allow(non_camel_case_types)]
#[derive(Debug, Clone, Copy, PartialEq, Eq)]
pub enum MeasurementKind {
    /// Unknown.
    UNKNOWN,
    /// Incrementing counters which are not reset on each reporting.
    COUNTER,
    /// Counters that do get reset upon reading.
    ABSOLUTE,
    /// E.g. a temperature value.
    GAUGE,
    /// E.g. a firmware version, true / false value.
    STRING,
}

/// The declared measurements, by key.
#[derive(Debug)]
pub struct Measurements(HashMap<String, Measurement>);

impl View for Measurements {
    type V = Map<String, Measurement>;

    closed spec fn view(&self) -> Map<String, Measurement> {
        self.0@
    }
}

impl Clone for Measurements {
    fn clone(&self) -> (r: Self)
        ensures
            r@ == self@,
    {
        Measurements(self.0.clone())
    }
}

impl Measurements {
    /// The measurements of the given map.
    pub fn new(m: HashMap<String, Measurement>) -> (r: Measurements)
        ensures
            r@ == m@,
    {
        Measurements(m)
    }

    /// A copy of the measurements as a map.
    pub fn into_hashmap(&self) -> (m: HashMap<String, Measurement>)
        ensures
            m@ == self@,
    {
        self.0.clone()
    }
}

} // verus!
