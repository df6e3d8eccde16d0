use vstd::prelude::*;
use vstd::string::StringExecFns;
use crate::json::{
    JsonValue, get_bool_field, get_str_field, obj_take, obj_get, spec_bool_field, spec_obj_get,
    spec_str_field, spec_str_items, strings_of_array,
};
use crate::strutil::str_eq;

verus! {

/// The host events a plugin can subscribe to.
#[derive(Debug, Clone, Copy, PartialEq, Eq, Hash, Structural)]
pub enum EventName {
    /// Emitted when a blacklisted IP is blocked.
    BlacklistedIpBlocked,
    /// Emitted when the blacklist is toggled for an access rule.
    BlacklistToggled,
    /// Emitted when a new access ruleset is created.
    AccessRuleCreated,
    /// A custom event emitted by a plugin for designated recipients.
    CustomEvent,
}

/// The name an event carries on the wire.
pub open spec fn spec_event_key(e: EventName) -> Seq<char> {
    match e {
        EventName::BlacklistedIpBlocked => "blacklistedIpBlocked"@,
        EventName::BlacklistToggled => "blacklistToggled"@,
        EventName::AccessRuleCreated => "accessRuleCreated"@,
        EventName::CustomEvent => "customEvent"@,
    }
}

/// The event named by a wire string, if any.
pub open spec fn spec_event_name_of(s: Seq<char>) -> Option<EventName> {
    if s == "blacklistedIpBlocked"@ {
        Some(EventName::BlacklistedIpBlocked)
    } else if s == "blacklistToggled"@ {
        Some(EventName::BlacklistToggled)
    } else if s == "accessRuleCreated"@ {
        Some(EventName::AccessRuleCreated)
    } else if s == "customEvent"@ {
        Some(EventName::CustomEvent)
    } else {
        None
    }
}

impl EventName {
    /// The name this event carries on the wire.
    pub fn wire_name(&self) -> (r: String)
        ensures
            r@ == spec_event_key(*self),
    {
        match self {
            EventName::BlacklistedIpBlocked => String::from_str("blacklistedIpBlocked"),
            EventName::BlacklistToggled => String::from_str("blacklistToggled"),
            EventName::AccessRuleCreated => String::from_str("accessRuleCreated"),
            EventName::CustomEvent => String::from_str("customEvent"),
        }
    }

    /// Decodes a wire name back into an event name.
    pub fn from_wire_name(s: &str) -> (r: Option<EventName>)
        ensures
            r == spec_event_name_of(s@),
    {
        if str_eq(s, "blacklistedIpBlocked") {
            Some(EventName::BlacklistedIpBlocked)
        } else if str_eq(s, "blacklistToggled") {
            Some(EventName::BlacklistToggled)
        } else if str_eq(s, "accessRuleCreated") {
            Some(EventName::AccessRuleCreated)
        } else if str_eq(s, "customEvent") {
            Some(EventName::CustomEvent)
        } else {
            None
        }
    }
}

/// An event recording that a blacklisted IP was blocked.
#[derive(Debug, Clone)]
pub struct BlacklistedIPBlockedEvent {
    pub ip: String,
    pub comment: String,
    pub requested_url: String,
    pub hostname: String,
    pub user_agent: String,
    pub method: String,
}

/// An event recording that the blacklist was toggled for an access rule.
#[derive(Debug, Clone)]
pub struct BlacklistToggledEvent {
    pub rule_id: String,
    /// Whether the blacklist is now enabled.
    pub enabled: bool,
}

/// An event recording that a new access ruleset was created.
#[derive(Debug, Clone)]
pub struct AccessRuleCreatedEvent {
    pub id: String,
    pub name: String,
    pub desc: String,
    pub blacklist_enabled: bool,
    pub whitelist_enabled: bool,
}

/// A plugin-emitted event broadcast to designated recipients.
#[derive(Debug)]
pub struct CustomEvent {
    pub source_plugin: String,
    pub recipients: Vec<String>,
    pub payload: Vec<(String, JsonValue)>,
}

/// The payload of a host event, keyed by its event name.
#[derive(Debug)]
pub enum EventPayload {
    BlacklistedIPBlocked(BlacklistedIPBlockedEvent),
    BlacklistToggled(BlacklistToggledEvent),
    AccessRuleCreated(AccessRuleCreatedEvent),
    Custom(CustomEvent),
}

/// The event name a payload belongs to.
pub open spec fn spec_payload_name(p: EventPayload) -> EventName {
    match p {
        EventPayload::BlacklistedIPBlocked(_) => EventName::BlacklistedIpBlocked,
        EventPayload::BlacklistToggled(_) => EventName::BlacklistToggled,
        EventPayload::AccessRuleCreated(_) => EventName::AccessRuleCreated,
        EventPayload::Custom(_) => EventName::CustomEvent,
    }
}

/// The subsystem a payload originates from.
pub open spec fn spec_payload_source(p: EventPayload) -> Seq<char> {
    match p {
        EventPayload::BlacklistedIPBlocked(_) => "proxy-access"@,
        EventPayload::BlacklistToggled(_) => "accesslist-api"@,
        EventPayload::AccessRuleCreated(_) => "accesslist-api"@,
        EventPayload::Custom(e) => e.source_plugin@,
    }
}

/// The blocked-IP event held in a JSON document, if it decodes.
pub open spec fn spec_blacklisted_of(v: JsonValue) -> Option<BlacklistedIPBlockedEvent> {
    match v {
        JsonValue::Obj(es) => {
            let ip = spec_str_field(es@, "ip"@);
            let comment = spec_str_field(es@, "comment"@);
            let requested_url = spec_str_field(es@, "requested_url"@);
            let hostname = spec_str_field(es@, "hostname"@);
            let user_agent = spec_str_field(es@, "user_agent"@);
            let method = spec_str_field(es@, "method"@);
            if ip is Some && comment is Some && requested_url is Some && hostname is Some
                && user_agent is Some && method is Some {
                Some(
                    BlacklistedIPBlockedEvent {
                        ip: ip->0,
                        comment: comment->0,
                        requested_url: requested_url->0,
                        hostname: hostname->0,
                        user_agent: user_agent->0,
                        method: method->0,
                    },
                )
            } else {
                None
            }
        },
        _ => None,
    }
}

/// The blacklist-toggled event held in a JSON document, if it decodes.
pub open spec fn spec_toggled_of(v: JsonValue) -> Option<BlacklistToggledEvent> {
    match v {
        JsonValue::Obj(es) => {
            let rule_id = spec_str_field(es@, "rule_id"@);
            let enabled = spec_bool_field(es@, "enabled"@);
            if rule_id is Some && enabled is Some {
                Some(BlacklistToggledEvent { rule_id: rule_id->0, enabled: enabled->0 })
            } else {
                None
            }
        },
        _ => None,
    }
}

/// The access-rule-created event held in a JSON document, if it decodes.
pub open spec fn spec_rule_created_of(v: JsonValue) -> Option<AccessRuleCreatedEvent> {
    match v {
        JsonValue::Obj(es) => {
            let id = spec_str_field(es@, "id"@);
            let name = spec_str_field(es@, "name"@);
            let desc = spec_str_field(es@, "desc"@);
            let blacklist_enabled = spec_bool_field(es@, "blacklist_enabled"@);
            let whitelist_enabled = spec_bool_field(es@, "whitelist_enabled"@);
            if id is Some && name is Some && desc is Some && blacklist_enabled is Some
                && whitelist_enabled is Some {
                Some(
                    AccessRuleCreatedEvent {
                        id: id->0,
                        name: name->0,
                        desc: desc->0,
                        blacklist_enabled: blacklist_enabled->0,
                        whitelist_enabled: whitelist_enabled->0,
                    },
                )
            } else {
                None
            }
        },
        _ => None,
    }
}

/// The string the custom-event decode reads under `source_plugin`.
pub open spec fn spec_custom_source(es: Seq<(String, JsonValue)>) -> Option<String> {
    spec_str_field(es, "source_plugin"@)
}

/// The recipient strings the custom-event decode reads, if they decode.
pub open spec fn spec_custom_recipients(es: Seq<(String, JsonValue)>) -> Option<Seq<String>> {
    match spec_obj_get(es, "recipients"@) {
        Some(JsonValue::Arr(items)) => spec_str_items(items@),
        _ => None,
    }
}

/// The payload object the custom-event decode reads, if present.
pub open spec fn spec_custom_payload(es: Seq<(String, JsonValue)>) -> Option<
    Vec<(String, JsonValue)>,
> {
    match spec_obj_get(es, "payload"@) {
        Some(JsonValue::Obj(p)) => Some(p),
        _ => None,
    }
}

/// Whether a JSON document decodes as a custom event.
pub open spec fn spec_custom_decodes(v: JsonValue) -> bool {
    match v {
        JsonValue::Obj(es) => spec_custom_source(es@) is Some && spec_custom_recipients(es@)
            is Some && spec_custom_payload(es@) is Some,
        _ => false,
    }
}

/// Whether `e` is exactly the custom event held in the document.
pub open spec fn spec_custom_matches(v: JsonValue, e: CustomEvent) -> bool {
    match v {
        JsonValue::Obj(es) => spec_custom_source(es@) == Some(e.source_plugin)
            && spec_custom_recipients(es@) == Some(e.recipients@) && spec_custom_payload(es@)
            == Some(e.payload),
        _ => false,
    }
}

/// Whether a JSON document decodes as a payload of the given event name.
pub open spec fn spec_payload_decodes(v: JsonValue, n: EventName) -> bool {
    match n {
        EventName::BlacklistedIpBlocked => spec_blacklisted_of(v) is Some,
        EventName::BlacklistToggled => spec_toggled_of(v) is Some,
        EventName::AccessRuleCreated => spec_rule_created_of(v) is Some,
        EventName::CustomEvent => spec_custom_decodes(v),
    }
}

/// Whether `p` is exactly the payload held in the document under `n`.
pub open spec fn spec_payload_matches(v: JsonValue, n: EventName, p: EventPayload) -> bool {
    match (n, p) {
        (EventName::BlacklistedIpBlocked, EventPayload::BlacklistedIPBlocked(e)) => {
            spec_blacklisted_of(v) == Some(e)
        },
        (EventName::BlacklistToggled, EventPayload::BlacklistToggled(e)) => {
            spec_toggled_of(v) == Some(e)
        },
        (EventName::AccessRuleCreated, EventPayload::AccessRuleCreated(e)) => {
            spec_rule_created_of(v) == Some(e)
        },
        (EventName::CustomEvent, EventPayload::Custom(e)) => spec_custom_matches(v, e),
        _ => false,
    }
}

/// A JSON document did not decode as the expected event shape.
#[derive(Debug, Clone, Copy, PartialEq, Eq, Structural)]
pub struct EventDecodeError;

impl EventPayload {
    /// The event name this payload belongs to.
    pub fn get_name(&self) -> (r: EventName)
        ensures
            r == spec_payload_name(*self),
    {
        match self {
            EventPayload::BlacklistedIPBlocked(_) => EventName::BlacklistedIpBlocked,
            EventPayload::BlacklistToggled(_) => EventName::BlacklistToggled,
            EventPayload::AccessRuleCreated(_) => EventName::AccessRuleCreated,
            EventPayload::Custom(_) => EventName::CustomEvent,
        }
    }

    /// The subsystem this payload originates from.
    pub fn get_event_source(&self) -> (r: String)
        ensures
            r@ == spec_payload_source(*self),
    {
        match self {
            EventPayload::BlacklistedIPBlocked(_) => String::from_str("proxy-access"),
            EventPayload::BlacklistToggled(_) => String::from_str("accesslist-api"),
            EventPayload::AccessRuleCreated(_) => String::from_str("accesslist-api"),
            EventPayload::Custom(e) => e.source_plugin.clone(),
        }
    }

    /// Decodes an event payload from a JSON document, under the event name
    /// the surrounding envelope carries.
    pub fn from_json(value: JsonValue, event_name: &EventName) -> (r: Result<
        EventPayload,
        EventDecodeError,
    >)
        ensures
            r is Ok <==> spec_payload_decodes(value, *event_name),
            r matches Ok(p) ==> spec_payload_matches(value, *event_name, p),
    {
        match event_name {
            EventName::BlacklistedIpBlocked => match decode_blacklisted(value) {
                Some(e) => Ok(EventPayload::BlacklistedIPBlocked(e)),
                None => Err(EventDecodeError),
            },
            EventName::BlacklistToggled => match decode_toggled(value) {
                Some(e) => Ok(EventPayload::BlacklistToggled(e)),
                None => Err(EventDecodeError),
            },
            EventName::AccessRuleCreated => match decode_rule_created(value) {
                Some(e) => Ok(EventPayload::AccessRuleCreated(e)),
                None => Err(EventDecodeError),
            },
            EventName::CustomEvent => match decode_custom(value) {
                Some(e) => Ok(EventPayload::Custom(e)),
                None => Err(EventDecodeError),
            },
        }
    }
}

fn decode_blacklisted(value: JsonValue) -> (r: Option<BlacklistedIPBlockedEvent>)
    ensures
        r == spec_blacklisted_of(value),
{
    match value {
        JsonValue::Obj(es) => {
            let ip = get_str_field(&es, "ip");
            let comment = get_str_field(&es, "comment");
            let requested_url = get_str_field(&es, "requested_url");
            let hostname = get_str_field(&es, "hostname");
            let user_agent = get_str_field(&es, "user_agent");
            let method = get_str_field(&es, "method");
            match (ip, comment, requested_url, hostname, user_agent, method) {
                (
                    Some(ip),
                    Some(comment),
                    Some(requested_url),
                    Some(hostname),
                    Some(user_agent),
                    Some(method),
                ) => Some(
                    BlacklistedIPBlockedEvent {
                        ip,
                        comment,
                        requested_url,
                        hostname,
                        user_agent,
                        method,
                    },
                ),
                _ => None,
            }
        },
        _ => None,
    }
}

fn decode_toggled(value: JsonValue) -> (r: Option<BlacklistToggledEvent>)
    ensures
        r == spec_toggled_of(value),
{
    match value {
        JsonValue::Obj(es) => {
            let rule_id = get_str_field(&es, "rule_id");
            let enabled = get_bool_field(&es, "enabled");
            match (rule_id, enabled) {
                (Some(rule_id), Some(enabled)) => Some(BlacklistToggledEvent { rule_id, enabled }),
                _ => None,
            }
        },
        _ => None,
    }
}

fn decode_rule_created(value: JsonValue) -> (r: Option<AccessRuleCreatedEvent>)
    ensures
        r == spec_rule_created_of(value),
{
    match value {
        JsonValue::Obj(es) => {
            let id = get_str_field(&es, "id");
            let name = get_str_field(&es, "name");
            let desc = get_str_field(&es, "desc");
            let blacklist_enabled = get_bool_field(&es, "blacklist_enabled");
            let whitelist_enabled = get_bool_field(&es, "whitelist_enabled");
            match (id, name, desc, blacklist_enabled, whitelist_enabled) {
                (
                    Some(id),
                    Some(name),
                    Some(desc),
                    Some(blacklist_enabled),
                    Some(whitelist_enabled),
                ) => Some(
                    AccessRuleCreatedEvent {
                        id,
                        name,
                        desc,
                        blacklist_enabled,
                        whitelist_enabled,
                    },
                ),
                _ => None,
            }
        },
        _ => None,
    }
}

fn decode_custom(value: JsonValue) -> (r: Option<CustomEvent>)
    ensures
        r is Some <==> spec_custom_decodes(value),
        r matches Some(e) ==> spec_custom_matches(value, e),
{
    match value {
        JsonValue::Obj(es) => {
            let source_plugin = get_str_field(&es, "source_plugin");
            let recipients = match obj_get(&es, "recipients") {
                Some(JsonValue::Arr(items)) => strings_of_array(items),
                _ => None,
            };
            let payload = match obj_take(es, "payload") {
                Some(JsonValue::Obj(p)) => Some(p),
                _ => None,
            };
            match (source_plugin, recipients, payload) {
                (Some(source_plugin), Some(recipients), Some(payload)) => Some(
                    CustomEvent { source_plugin, recipients, payload },
                ),
                _ => None,
            }
        },
        _ => None,
    }
}

/// A host event envelope: name, timestamp, identifier, and the payload.
#[derive(Debug)]
pub struct Event {
    pub name: EventName,
    /// Seconds since the Unix epoch.
    pub timestamp: i64,
    /// The host-assigned identifier of the event.
    pub uuid: String,
    pub data: EventPayload,
}

/// The event name an envelope document carries, if it decodes.
pub open spec fn spec_event_env_name(es: Seq<(String, JsonValue)>) -> Option<EventName> {
    match spec_str_field(es, "name"@) {
        Some(s) => spec_event_name_of(s@),
        None => None,
    }
}

/// Whether an envelope document decodes as a full event.
pub open spec fn spec_event_decodes(v: JsonValue) -> bool {
    match v {
        JsonValue::Obj(es) => {
            let name = spec_event_env_name(es@);
            spec_event_env_name(es@) is Some && crate::json::spec_int_field(es@, "timestamp"@)
                is Some && spec_str_field(es@, "uuid"@) is Some && (match spec_obj_get(
                es@,
                "data"@,
            ) {
                Some(dv) => spec_payload_decodes(dv, name->0),
                None => false,
            })
        },
        _ => false,
    }
}

/// Whether `e` is exactly the event held in the envelope document.
pub open spec fn spec_event_matches(v: JsonValue, e: Event) -> bool {
    match v {
        JsonValue::Obj(es) => spec_event_env_name(es@) == Some(e.name)
            && crate::json::spec_int_field(es@, "timestamp"@) == Some(e.timestamp)
            && spec_str_field(es@, "uuid"@) == Some(e.uuid) && (match spec_obj_get(es@, "data"@) {
            Some(dv) => spec_payload_matches(dv, e.name, e.data),
            None => false,
        }),
        _ => false,
    }
}

impl Event {
    /// Decodes a full event envelope from a JSON document.
    pub fn from_json(value: JsonValue) -> (r: Result<Event, EventDecodeError>)
        ensures
            r is Ok <==> spec_event_decodes(value),
            r matches Ok(e) ==> spec_event_matches(value, e),
    {
        match value {
            JsonValue::Obj(es) => {
                let name = match get_str_field(&es, "name") {
                    Some(s) => EventName::from_wire_name(s.as_str()),
                    None => None,
                };
                let timestamp = crate::json::get_int_field(&es, "timestamp");
                let uuid = get_str_field(&es, "uuid");
                let data = match (obj_take(es, "data"), name) {
                    (Some(dv), Some(n)) => match EventPayload::from_json(dv, &n) {
                        Ok(p) => Some(p),
                        Err(_) => None,
                    },
                    _ => None,
                };
                match (name, timestamp, uuid, data) {
                    (Some(name), Some(timestamp), Some(uuid), Some(data)) => Ok(
                        Event { name, timestamp, uuid, data },
                    ),
                    _ => Err(EventDecodeError),
                }
            },
            _ => Err(EventDecodeError),
        }
    }
}

} // verus!
