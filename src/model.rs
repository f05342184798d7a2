//! Instance records, the snapshots handed to callers, and method parameters.
use vstd::prelude::*;
use vstd::string::StringExecFns;
use crate::clock::{rfc3339_text, timestamp_text};
use crate::json::{lookup, push_member, take_fields, JsonValue};

verus! {

/// Liveness of a registered instance as the last sweep saw it.
#[derive(Clone, Copy, Debug, PartialEq, Eq, Structural)]
pub enum HealthStatus {
    Unknown,
    Healthy,
}

/// Milliseconds since the Unix epoch, UTC.
pub type Timestamp = i64;

/// The latest instant the calendar library can represent, in milliseconds:
/// the last millisecond of year 262142.
pub const MAX_TIMESTAMP_MS: i64 = 8_210_266_876_799_999;

/// Timestamps the registry holds: from the epoch up to `MAX_TIMESTAMP_MS`.
pub open spec fn valid_timestamp(t: i64) -> bool {
    0 <= t <= MAX_TIMESTAMP_MS
}

/// One registered instance, as the registry holds it.
#[derive(Clone, Debug, PartialEq, Eq)]
pub struct InstanceInfo {
    pub identifier: String,
    pub server_address: String,
    pub registered_at: Timestamp,
    pub last_ping: Timestamp,
    pub health_status: HealthStatus,
    pub last_health_check: Timestamp,
}

/// The copy of a record returned to callers.
#[derive(Clone, Debug, PartialEq, Eq)]
pub struct InstanceResult {
    pub identifier: String,
    pub server_address: String,
    pub health_status: HealthStatus,
    pub last_health_check: Timestamp,
}

#[derive(Clone, Debug, PartialEq, Eq)]
pub struct QueryInstanceParams {
    pub identifier: String,
}

#[derive(Clone, Debug, PartialEq, Eq)]
pub struct RegisterInstanceParams {
    pub identifier: String,
    pub server_address: String,
}

#[derive(Clone, Debug, PartialEq, Eq)]
pub struct UnregisterInstanceParams {
    pub identifier: String,
}

/// The snapshot of a record.
pub open spec fn snapshot_of(r: InstanceInfo) -> InstanceResult {
    InstanceResult {
        identifier: r.identifier,
        server_address: r.server_address,
        health_status: r.health_status,
        last_health_check: r.last_health_check,
    }
}

/// A record after a successful probe at `now`: healthy, and its check and
/// ping times moved to `now`, never backwards.
pub open spec fn refreshed(r: InstanceInfo, now: i64) -> InstanceInfo {
    let t = if now > r.last_health_check {
        now
    } else {
        r.last_health_check
    };
    InstanceInfo {
        identifier: r.identifier,
        server_address: r.server_address,
        registered_at: r.registered_at,
        last_ping: t,
        health_status: HealthStatus::Healthy,
        last_health_check: t,
    }
}

/// A freshly registered record.
pub open spec fn new_record(identifier: String, server_address: String, now: i64) -> InstanceInfo {
    InstanceInfo {
        identifier,
        server_address,
        registered_at: now,
        last_ping: now,
        health_status: HealthStatus::Unknown,
        last_health_check: now,
    }
}

impl InstanceInfo {
    pub open spec fn timestamps_valid(self) -> bool {
        &&& valid_timestamp(self.registered_at)
        &&& valid_timestamp(self.last_ping)
        &&& valid_timestamp(self.last_health_check)
    }

    /// The snapshot handed to callers.
    pub fn snapshot(&self) -> (r: InstanceResult)
        ensures
            r == snapshot_of(*self),
    {
        InstanceResult {
            identifier: self.identifier.clone(),
            server_address: self.server_address.clone(),
            health_status: self.health_status,
            last_health_check: self.last_health_check,
        }
    }

    /// This record after a successful probe at `now`.
    pub fn refreshed_at(&self, now: Timestamp) -> (r: InstanceInfo)
        ensures
            r == refreshed(*self, now),
    {
        let t = if now > self.last_health_check {
            now
        } else {
            self.last_health_check
        };
        InstanceInfo {
            identifier: self.identifier.clone(),
            server_address: self.server_address.clone(),
            registered_at: self.registered_at,
            last_ping: t,
            health_status: HealthStatus::Healthy,
            last_health_check: t,
        }
    }
}

} // verus!

verus! {

/// The wire name of a status.
pub open spec fn status_name(h: HealthStatus) -> Seq<char> {
    match h {
        HealthStatus::Unknown => "Unknown"@,
        HealthStatus::Healthy => "Healthy"@,
    }
}

/// The text of a member `key` of an object's members, or why there is none.
pub open spec fn text_member(
    fields: Seq<(String, JsonValue)>,
    key: Seq<char>,
) -> Result<String, Seq<char>> {
    match lookup(fields, key) {
        Some(JsonValue::Text(s)) => Ok(s),
        None => Err("missing field `"@ + key + "`"@),
        Some(_) => Err("invalid type for field `"@ + key + "`, expected a string"@),
    }
}

/// The message for parameters that are not an object.
pub open spec fn not_an_object() -> Seq<char> {
    "invalid type: expected an object"@
}

/// The parameters that `v` holds for a method taking one identifier.
pub open spec fn decoded_identifier(v: JsonValue) -> Result<String, Seq<char>> {
    match v {
        JsonValue::Object(f) => text_member(f@, "identifier"@),
        _ => Err(not_an_object()),
    }
}

/// The identifier and address that `v` holds; the identifier is read first.
pub open spec fn decoded_registration(v: JsonValue) -> Result<(String, String), Seq<char>> {
    match v {
        JsonValue::Object(f) => match text_member(f@, "identifier"@) {
            Ok(id) => match text_member(f@, "server_address"@) {
                Ok(addr) => Ok((id, addr)),
                Err(m) => Err(m),
            },
            Err(m) => Err(m),
        },
        _ => Err(not_an_object()),
    }
}

/// `v` is the JSON form of the snapshot `s`.
pub open spec fn encodes_snapshot(v: JsonValue, s: InstanceResult) -> bool {
    &&& v is Object
    &&& lookup(v->Object_0@, "identifier"@) == Some(JsonValue::Text(s.identifier))
    &&& lookup(v->Object_0@, "server_address"@) == Some(JsonValue::Text(s.server_address))
    &&& lookup(v->Object_0@, "health_status"@) matches Some(JsonValue::Text(h)) && h@
        == status_name(s.health_status)
    &&& lookup(v->Object_0@, "last_health_check"@) matches Some(JsonValue::Text(t)) && t@
        == rfc3339_text(s.last_health_check)
}

/// The text of member `key`, taken from the value found for it.
fn take_text(slot: Option<JsonValue>, key: &str) -> (r: Result<String, String>)
    ensures
        match (slot, r) {
            (Some(JsonValue::Text(s)), Ok(t)) => t == s,
            (None, Err(m)) => m@ == "missing field `"@ + key@ + "`"@,
            (Some(JsonValue::Text(_)), Err(_)) => false,
            (Some(_), Err(m)) => m@ == "invalid type for field `"@ + key@ + "`, expected a string"@,
            _ => false,
        },
{
    match slot {
        Some(JsonValue::Text(s)) => Ok(s),
        None => {
            let m = "missing field `".to_string();
            let m = m.concat(key);
            Err(m.concat("`"))
        },
        Some(_) => {
            let m = "invalid type for field `".to_string();
            let m = m.concat(key);
            Err(m.concat("`, expected a string"))
        },
    }
}

fn not_an_object_message() -> (r: String)
    ensures
        r@ == not_an_object(),
{
    "invalid type: expected an object".to_string()
}

/// Reads the one identifier of a query or unregistration.
fn identifier_from_json(v: JsonValue) -> (r: Result<String, String>)
    ensures
        match (decoded_identifier(v), r) {
            (Ok(a), Ok(b)) => a == b,
            (Err(a), Err(b)) => a == b@,
            _ => false,
        },
{
    match v {
        JsonValue::Object(f) => {
            let mut names: Vec<&str> = Vec::new();
            names.push("identifier");
            let mut vals = take_fields(f, &names);
            let slot = vals.pop().unwrap();
            take_text(slot, "identifier")
        },
        _ => Err(not_an_object_message()),
    }
}

/// A one-member object `key: Text(value)`.
fn text_object(key: &str, value: String) -> (r: JsonValue)
    ensures
        r is Object,
        lookup(r->Object_0@, key@) == Some(JsonValue::Text(value)),
{
    let mut f: Vec<(String, JsonValue)> = Vec::new();
    push_member(&mut f, key, JsonValue::Text(value));
    JsonValue::Object(f)
}

impl QueryInstanceParams {
    /// Reads the parameters of a query.
    pub fn from_json(v: JsonValue) -> (r: Result<QueryInstanceParams, String>)
        ensures
            match (decoded_identifier(v), r) {
                (Ok(a), Ok(b)) => b.identifier == a,
                (Err(a), Err(b)) => a == b@,
                _ => false,
            },
    {
        match identifier_from_json(v) {
            Ok(identifier) => Ok(QueryInstanceParams { identifier }),
            Err(m) => Err(m),
        }
    }

    /// The JSON form of these parameters.
    pub fn to_json(self) -> (r: JsonValue)
        ensures
            decoded_identifier(r) == Ok::<String, Seq<char>>(self.identifier),
    {
        text_object("identifier", self.identifier)
    }
}

impl UnregisterInstanceParams {
    /// Reads the parameters of an unregistration.
    pub fn from_json(v: JsonValue) -> (r: Result<UnregisterInstanceParams, String>)
        ensures
            match (decoded_identifier(v), r) {
                (Ok(a), Ok(b)) => b.identifier == a,
                (Err(a), Err(b)) => a == b@,
                _ => false,
            },
    {
        match identifier_from_json(v) {
            Ok(identifier) => Ok(UnregisterInstanceParams { identifier }),
            Err(m) => Err(m),
        }
    }

    /// The JSON form of these parameters.
    pub fn to_json(self) -> (r: JsonValue)
        ensures
            decoded_identifier(r) == Ok::<String, Seq<char>>(self.identifier),
    {
        text_object("identifier", self.identifier)
    }
}

impl RegisterInstanceParams {
    /// Reads the parameters of a registration.
    pub fn from_json(v: JsonValue) -> (r: Result<RegisterInstanceParams, String>)
        ensures
            match (decoded_registration(v), r) {
                (Ok(a), Ok(b)) => b.identifier == a.0 && b.server_address == a.1,
                (Err(a), Err(b)) => a == b@,
                _ => false,
            },
    {
        match v {
            JsonValue::Object(f) => {
                let mut names: Vec<&str> = Vec::new();
                names.push("identifier");
                names.push("server_address");
                proof {
                    reveal_strlit("identifier");
                    reveal_strlit("server_address");
                    assert("identifier"@.len() != "server_address"@.len());
                }
                let mut vals = take_fields(f, &names);
                let addr_slot = vals.pop().unwrap();
                let id_slot = vals.pop().unwrap();
                match take_text(id_slot, "identifier") {
                    Ok(identifier) => match take_text(addr_slot, "server_address") {
                        Ok(server_address) => Ok(RegisterInstanceParams { identifier, server_address }),
                        Err(m) => Err(m),
                    },
                    Err(m) => Err(m),
                }
            },
            _ => Err(not_an_object_message()),
        }
    }

    /// The JSON form of these parameters.
    pub fn to_json(self) -> (r: JsonValue)
        ensures
            decoded_registration(r) == Ok::<(String, String), Seq<char>>(
                (self.identifier, self.server_address),
            ),
    {
        proof {
            reveal_strlit("identifier");
            reveal_strlit("server_address");
            assert("identifier"@.len() != "server_address"@.len());
        }
        let mut f: Vec<(String, JsonValue)> = Vec::new();
        push_member(&mut f, "identifier", JsonValue::Text(self.identifier));
        push_member(&mut f, "server_address", JsonValue::Text(self.server_address));
        JsonValue::Object(f)
    }
}

impl HealthStatus {
    /// The wire name of this status.
    pub fn name(&self) -> (r: String)
        ensures
            r@ == status_name(*self),
    {
        match self {
            HealthStatus::Unknown => "Unknown".to_string(),
            HealthStatus::Healthy => "Healthy".to_string(),
        }
    }
}

impl InstanceResult {
    /// The JSON form of this snapshot; the check time is written as RFC 3339
    /// text.
    pub fn to_json(self) -> (r: JsonValue)
        requires
            valid_timestamp(self.last_health_check),
        ensures
            encodes_snapshot(r, self),
    {
        proof {
            reveal_strlit("identifier");
            reveal_strlit("server_address");
            reveal_strlit("health_status");
            reveal_strlit("last_health_check");
            assert("identifier"@.len() != "server_address"@.len());
            assert("identifier"@.len() != "health_status"@.len());
            assert("identifier"@.len() != "last_health_check"@.len());
            assert("server_address"@[0] != "health_status"@[0]);
            assert("server_address"@.len() != "last_health_check"@.len());
            assert("health_status"@.len() != "last_health_check"@.len());
        }
        let status = self.health_status.name();
        let checked = timestamp_text(self.last_health_check);
        let mut f: Vec<(String, JsonValue)> = Vec::new();
        push_member(&mut f, "identifier", JsonValue::Text(self.identifier));
        push_member(&mut f, "server_address", JsonValue::Text(self.server_address));
        push_member(&mut f, "health_status", JsonValue::Text(status));
        push_member(&mut f, "last_health_check", JsonValue::Text(checked));
        JsonValue::Object(f)
    }
}

} // verus!
