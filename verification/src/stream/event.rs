//! Reading back the event log of a device: which event a stream entry holds,
//! and the properties shown with it.
use vstd::prelude::*;

use crate::lorawan::hexstr::{hex_encode, hex_encode_spec};
use crate::storage::keys::{append_decimal, decimal_spec};

verus! {

/// The kind of event that an entry of the event stream holds, by its field
/// name.
#[derive(Debug, Clone, Copy, PartialEq, Eq)]
pub enum EventLogKind {
    Up,
    Join,
    Ack,
    TxAck,
    Status,
    Log,
    Location,
    Integration,
}

/// The field name under which events of the kind are written.
pub open spec fn event_log_key(kind: EventLogKind) -> Seq<char> {
    match kind {
        EventLogKind::Up => "up"@,
        EventLogKind::Join => "join"@,
        EventLogKind::Ack => "ack"@,
        EventLogKind::TxAck => "txack"@,
        EventLogKind::Status => "status"@,
        EventLogKind::Log => "log"@,
        EventLogKind::Location => "location"@,
        EventLogKind::Integration => "integration"@,
    }
}

/// The field name of events of the kind, which is also the description of
/// their log items.
pub fn event_log_name(kind: EventLogKind) -> (s: String)
    ensures
        s@ == event_log_key(kind),
        kind == EventLogKind::Join ==> s@ == "join"@,
        kind == EventLogKind::Up ==> s@ == "up"@,
{
    match kind {
        EventLogKind::Up => "up".to_owned(),
        EventLogKind::Join => "join".to_owned(),
        EventLogKind::Ack => "ack".to_owned(),
        EventLogKind::TxAck => "txack".to_owned(),
        EventLogKind::Status => "status".to_owned(),
        EventLogKind::Log => "log".to_owned(),
        EventLogKind::Location => "location".to_owned(),
        EventLogKind::Integration => "integration".to_owned(),
    }
}

/// The field names of the event kinds are the fixed ones that events are
/// written under (`up`, `join`, `ack`, `txack`, `status`, `log`,
/// `location`, `integration`), no two the same, so every entry reads back
/// as the kind it was written as.
pub proof fn lemma_event_log_names_distinct()
    ensures
        event_log_key(EventLogKind::Up) == "up"@,
        event_log_key(EventLogKind::Join) == "join"@,
        event_log_key(EventLogKind::Ack) == "ack"@,
        event_log_key(EventLogKind::TxAck) == "txack"@,
        event_log_key(EventLogKind::Status) == "status"@,
        event_log_key(EventLogKind::Log) == "log"@,
        event_log_key(EventLogKind::Location) == "location"@,
        event_log_key(EventLogKind::Integration) == "integration"@,
        forall|a: EventLogKind, b: EventLogKind| event_log_key(a) == event_log_key(b) ==> a == b,
{
    reveal_strlit("up");
    reveal_strlit("join");
    reveal_strlit("ack");
    reveal_strlit("txack");
    reveal_strlit("status");
    reveal_strlit("log");
    reveal_strlit("location");
    reveal_strlit("integration");
    assert forall|a: EventLogKind, b: EventLogKind| event_log_key(a) == event_log_key(b) implies a
        == b by {
        if a != b {
            assert(event_log_key(a).len() != event_log_key(b).len() || event_log_key(a)[0]
                != event_log_key(b)[0] || event_log_key(a)[1] != event_log_key(b)[1]);
        }
    }
}

/// Whether the two texts are equal.
pub(crate) fn str_eq(a: &str, b: &str) -> (r: bool)
    ensures
        r == (a@ == b@),
{
    a.to_owned() == b.to_owned()
}

/// The kind of event under the field name `k`; `None` for a name that the
/// event stream does not use (such entries are skipped).
pub fn event_log_kind(k: &str) -> (r: Option<EventLogKind>)
    ensures
        r matches Some(kind) ==> event_log_key(kind) == k@,
        r is None ==> forall|kind: EventLogKind| event_log_key(kind) != k@,
        r == Some(EventLogKind::Up) <==> k@ == "up"@,
        r == Some(EventLogKind::Join) <==> k@ == "join"@,
        r == Some(EventLogKind::Ack) <==> k@ == "ack"@,
        r == Some(EventLogKind::TxAck) <==> k@ == "txack"@,
        r == Some(EventLogKind::Status) <==> k@ == "status"@,
        r == Some(EventLogKind::Log) <==> k@ == "log"@,
        r == Some(EventLogKind::Location) <==> k@ == "location"@,
        r == Some(EventLogKind::Integration) <==> k@ == "integration"@,
{
    proof {
        lemma_event_log_names_distinct();
    }
    if str_eq(k, "up") {
        Some(EventLogKind::Up)
    } else if str_eq(k, "join") {
        Some(EventLogKind::Join)
    } else if str_eq(k, "ack") {
        Some(EventLogKind::Ack)
    } else if str_eq(k, "txack") {
        Some(EventLogKind::TxAck)
    } else if str_eq(k, "status") {
        Some(EventLogKind::Status)
    } else if str_eq(k, "log") {
        Some(EventLogKind::Log)
    } else if str_eq(k, "location") {
        Some(EventLogKind::Location)
    } else if str_eq(k, "integration") {
        Some(EventLogKind::Integration)
    } else {
        None
    }
}

/// The decimal text of `n`.
pub(crate) fn decimal_string(n: u32) -> (s: String)
    ensures
        s@ == decimal_spec(n as nat),
{
    let mut s = String::new();
    append_decimal(&mut s, n);
    s
}

/// `p` is the property with that name and value.
pub open spec fn property_is(p: (String, String), name: Seq<char>, value: Seq<char>) -> bool {
    p.0@ == name && p.1@ == value
}

/// The properties shown with an uplink event: its data-rate, FPort and
/// frame-counter in decimal and its data in hexadecimal.
pub fn uplink_event_properties(dr: u32, f_port: u32, f_cnt: u32, data: &[u8]) -> (r: Vec<
    (String, String),
>)
    ensures
        r@.len() == 4,
        property_is(r@[0], "DR"@, decimal_spec(dr as nat)),
        property_is(r@[1], "FPort"@, decimal_spec(f_port as nat)),
        property_is(r@[2], "FCnt"@, decimal_spec(f_cnt as nat)),
        property_is(r@[3], "Data"@, hex_encode_spec(data@)),
{
    let mut r: Vec<(String, String)> = Vec::new();
    r.push(("DR".to_owned(), decimal_string(dr)));
    r.push(("FPort".to_owned(), decimal_string(f_port)));
    r.push(("FCnt".to_owned(), decimal_string(f_cnt)));
    r.push(("Data".to_owned(), hex_encode(data)));
    r
}

/// The decimal text of a signed number: a minus sign in front of a negative
/// one.
pub open spec fn signed_decimal_spec(n: int) -> Seq<char> {
    if n < 0 {
        seq!['-'] + decimal_spec((-n) as nat)
    } else {
        decimal_spec(n as nat)
    }
}

/// The text of a boolean: `true` or `false`.
pub open spec fn bool_text(b: bool) -> Seq<char> {
    if b {
        "true"@
    } else {
        "false"@
    }
}

/// The decimal text of `n`, with a minus sign when it is negative.
pub(crate) fn signed_decimal_string(n: i32) -> (s: String)
    ensures
        s@ == signed_decimal_spec(n as int),
{
    let mut s = String::new();
    if n < 0 {
        s.append("-");
        let m: u32 = (0i64 - n as i64) as u32;
        append_decimal(&mut s, m);
        proof {
            reveal_strlit("-");
        }
    } else {
        append_decimal(&mut s, n as u32);
    }
    s
}

fn bool_string(b: bool) -> (s: String)
    ensures
        s@ == bool_text(b),
{
    proof {
        reveal_strlit("true");
        reveal_strlit("false");
    }
    if b {
        "true".to_owned()
    } else {
        "false".to_owned()
    }
}

/// The properties shown with a status event: the link margin in decimal, the
/// battery level as the caller rendered it (a whole percentage such as
/// `"87%"`), and whether the level is unavailable and whether the device runs
/// on an external power source, as `true` or `false`.
pub fn status_event_properties(
    margin: i32,
    battery_level: String,
    battery_level_unavailable: bool,
    external_power_source: bool,
) -> (r: Vec<(String, String)>)
    ensures
        r@.len() == 4,
        property_is(r@[0], "Margin"@, signed_decimal_spec(margin as int)),
        property_is(r@[1], "Battery level"@, battery_level@),
        property_is(r@[2], "Battery level unavailable"@, bool_text(battery_level_unavailable)),
        property_is(r@[3], "External power source"@, bool_text(external_power_source)),
{
    let mut r: Vec<(String, String)> = Vec::new();
    r.push(("Margin".to_owned(), signed_decimal_string(margin)));
    r.push(("Battery level".to_owned(), battery_level));
    r.push(("Battery level unavailable".to_owned(), bool_string(battery_level_unavailable)));
    r.push(("External power source".to_owned(), bool_string(external_power_source)));
    r
}

/// The properties shown with a join event: the device address it got.
pub fn join_event_properties(dev_addr: String) -> (r: Vec<(String, String)>)
    ensures
        r@.len() == 1,
        property_is(r@[0], "DevAddr"@, dev_addr@),
{
    let mut r: Vec<(String, String)> = Vec::new();
    r.push(("DevAddr".to_owned(), dev_addr));
    r
}

/// The properties shown with a log event: its level and code names.
pub fn log_event_properties(level: &str, code: &str) -> (r: Vec<(String, String)>)
    ensures
        r@.len() == 2,
        property_is(r@[0], "Level"@, level@),
        property_is(r@[1], "Code"@, code@),
{
    let mut r: Vec<(String, String)> = Vec::new();
    r.push(("Level".to_owned(), level.to_owned()));
    r.push(("Code".to_owned(), code.to_owned()));
    r
}

/// The properties shown with an integration event: the integration and the
/// event type.
pub fn integration_event_properties(integration_name: String, event_type: String) -> (r: Vec<
    (String, String),
>)
    ensures
        r@.len() == 2,
        property_is(r@[0], "Integration"@, integration_name@),
        property_is(r@[1], "Event"@, event_type@),
{
    let mut r: Vec<(String, String)> = Vec::new();
    r.push(("Integration".to_owned(), integration_name));
    r.push(("Event".to_owned(), event_type));
    r
}

/// The fields of a decoded event that the properties shown with it are made
/// of; a status event's battery level comes as the text the caller rendered.
#[derive(Debug)]
pub enum EventFields {
    Up { dr: u32, f_port: u32, f_cnt: u32, data: Vec<u8> },
    Join { dev_addr: String },
    Ack,
    TxAck,
    Status {
        margin: i32,
        battery_level: String,
        battery_level_unavailable: bool,
        external_power_source: bool,
    },
    Log { level: String, code: String },
    Location,
    Integration { integration_name: String, event_type: String },
}

/// `r` holds the properties shown with an event with these fields: none for
/// acknowledgements, transmission acknowledgements and locations.
pub open spec fn event_properties_are(fields: EventFields, r: Seq<(String, String)>) -> bool {
    match fields {
        EventFields::Up { dr, f_port, f_cnt, data } => {
            &&& r.len() == 4
            &&& property_is(r[0], "DR"@, decimal_spec(dr as nat))
            &&& property_is(r[1], "FPort"@, decimal_spec(f_port as nat))
            &&& property_is(r[2], "FCnt"@, decimal_spec(f_cnt as nat))
            &&& property_is(r[3], "Data"@, hex_encode_spec(data@))
        },
        EventFields::Join { dev_addr } => r.len() == 1 && property_is(r[0], "DevAddr"@, dev_addr@),
        EventFields::Status {
            margin,
            battery_level,
            battery_level_unavailable,
            external_power_source,
        } => {
            &&& r.len() == 4
            &&& property_is(r[0], "Margin"@, signed_decimal_spec(margin as int))
            &&& property_is(r[1], "Battery level"@, battery_level@)
            &&& property_is(
                r[2],
                "Battery level unavailable"@,
                bool_text(battery_level_unavailable),
            )
            &&& property_is(r[3], "External power source"@, bool_text(external_power_source))
        },
        EventFields::Log { level, code } => {
            &&& r.len() == 2
            &&& property_is(r[0], "Level"@, level@)
            &&& property_is(r[1], "Code"@, code@)
        },
        EventFields::Integration { integration_name, event_type } => {
            &&& r.len() == 2
            &&& property_is(r[0], "Integration"@, integration_name@)
            &&& property_is(r[1], "Event"@, event_type@)
        },
        EventFields::Ack | EventFields::TxAck | EventFields::Location => r.len() == 0,
    }
}

/// The properties shown with an event, by its kind.
pub fn event_properties(fields: EventFields) -> (r: Vec<(String, String)>)
    ensures
        event_properties_are(fields, r@),
{
    match fields {
        EventFields::Up { dr, f_port, f_cnt, data } => uplink_event_properties(
            dr,
            f_port,
            f_cnt,
            data.as_slice(),
        ),
        EventFields::Join { dev_addr } => join_event_properties(dev_addr),
        EventFields::Status {
            margin,
            battery_level,
            battery_level_unavailable,
            external_power_source,
        } => status_event_properties(
            margin,
            battery_level,
            battery_level_unavailable,
            external_power_source,
        ),
        EventFields::Log { level, code } => log_event_properties(level.as_str(), code.as_str()),
        EventFields::Integration { integration_name, event_type } => integration_event_properties(
            integration_name,
            event_type,
        ),
        EventFields::Ack | EventFields::TxAck | EventFields::Location => Vec::new(),
    }
}

} // verus!
