//! How the downlinks of a multicast group are scheduled.
use vstd::prelude::*;

verus! {

/// How the downlinks of a multicast group are scheduled.
#[allow(clippy::upper_case_acronyms)]
#[allow(non_camel_case_types)]
#[derive(Debug, Clone, Copy, PartialEq, Eq, Structural)]
pub enum MulticastGroupSchedulingType {
    /// Delay.
    DELAY,
    /// GPS time.
    GPS_TIME,
}

impl MulticastGroupSchedulingType {
    /// The name that the type is stored and displayed as.
    pub open spec fn name(self) -> Seq<char> {
        match self {
            MulticastGroupSchedulingType::DELAY => "DELAY"@,
            MulticastGroupSchedulingType::GPS_TIME => "GPS_TIME"@,
        }
    }

    /// The name that the type is stored and displayed as.
    pub fn to_string(&self) -> (s: String)
        ensures
            s@ == self.name(),
    {
        match self {
            MulticastGroupSchedulingType::DELAY => "DELAY".to_owned(),
            MulticastGroupSchedulingType::GPS_TIME => "GPS_TIME".to_owned(),
        }
    }

    /// The type with the given name; any other text is refused with the
    /// message `Unexpected MulticastGroupSchedulingType: <text>`.
    pub fn from_str(s: &str) -> (r: Result<MulticastGroupSchedulingType, String>)
        ensures
            match r {
                Ok(t) => t.name() == s@,
                Err(msg) => (forall|t: MulticastGroupSchedulingType| t.name() != s@) && msg@
                    == "Unexpected MulticastGroupSchedulingType: "@ + s@,
            },
    {
        let text = s.to_owned();
        if text == "DELAY".to_owned() {
            Ok(MulticastGroupSchedulingType::DELAY)
        } else if text == "GPS_TIME".to_owned() {
            Ok(MulticastGroupSchedulingType::GPS_TIME)
        } else {
            let mut msg = "Unexpected MulticastGroupSchedulingType: ".to_owned();
            msg.append(s);
            Err(msg)
        }
    }
}

/// The stored name of a scheduling type reads back as the same type, and no
/// two types share a name.
pub proof fn lemma_name_roundtrip(t: MulticastGroupSchedulingType, u: MulticastGroupSchedulingType)
    ensures
        t.name() == u.name() <==> t == u,
{
    reveal_strlit("DELAY");
    reveal_strlit("GPS_TIME");
    assert("DELAY"@.len() != "GPS_TIME"@.len());
}

} // verus!
