use zoraxy_plugin::json::JsonValue;
use zoraxy_plugin::types::events::{Event, EventName, EventPayload};

fn s(text: &str) -> JsonValue {
    JsonValue::Str(text.to_string())
}

#[test]
fn event_names_round_trip_their_wire_form() {
    let names = [
        EventName::BlacklistedIpBlocked,
        EventName::BlacklistToggled,
        EventName::AccessRuleCreated,
        EventName::CustomEvent,
    ];
    for name in names {
        let wire = name.wire_name();
        assert_eq!(EventName::from_wire_name(&wire), Some(name));
    }
    assert_eq!(
        EventName::BlacklistedIpBlocked.wire_name(),
        "blacklistedIpBlocked"
    );
    assert_eq!(EventName::from_wire_name("noSuchEvent"), None);
}

#[test]
fn decodes_blacklisted_ip_blocked_payload() {
    let doc = JsonValue::Obj(vec![
        ("ip".to_string(), s("10.0.0.1")),
        ("comment".to_string(), s("blocked")),
        ("requested_url".to_string(), s("/admin")),
        ("hostname".to_string(), s("example.com")),
        ("user_agent".to_string(), s("curl")),
        ("method".to_string(), s("GET")),
    ]);
    let payload = EventPayload::from_json(doc, &EventName::BlacklistedIpBlocked).unwrap();
    assert_eq!(payload.get_name(), EventName::BlacklistedIpBlocked);
    assert_eq!(payload.get_event_source(), "proxy-access");
    match payload {
        EventPayload::BlacklistedIPBlocked(e) => {
            assert_eq!(e.ip, "10.0.0.1");
            assert_eq!(e.method, "GET");
        }
        other => panic!("wrong payload: {:?}", other),
    }
}

#[test]
fn missing_field_fails_payload_decode() {
    let doc = JsonValue::Obj(vec![("rule_id".to_string(), s("r1"))]);
    let result = EventPayload::from_json(doc, &EventName::BlacklistToggled);
    assert!(result.is_err());
}

#[test]
fn wrong_field_type_fails_payload_decode() {
    let doc = JsonValue::Obj(vec![
        ("rule_id".to_string(), s("r1")),
        ("enabled".to_string(), s("yes")),
    ]);
    let result = EventPayload::from_json(doc, &EventName::BlacklistToggled);
    assert!(result.is_err());
}

#[test]
fn decodes_custom_event_payload() {
    let doc = JsonValue::Obj(vec![
        ("source_plugin".to_string(), s("com.example.src")),
        (
            "recipients".to_string(),
            JsonValue::Arr(vec![s("a"), s("b")]),
        ),
        (
            "payload".to_string(),
            JsonValue::Obj(vec![("k".to_string(), JsonValue::Int(3))]),
        ),
    ]);
    let payload = EventPayload::from_json(doc, &EventName::CustomEvent).unwrap();
    assert_eq!(payload.get_event_source(), "com.example.src");
    match payload {
        EventPayload::Custom(e) => {
            assert_eq!(e.recipients, vec!["a".to_string(), "b".to_string()]);
            assert_eq!(e.payload.len(), 1);
            assert_eq!(e.payload[0].0, "k");
            assert!(matches!(e.payload[0].1, JsonValue::Int(3)));
        }
        other => panic!("wrong payload: {:?}", other),
    }
}

#[test]
fn decodes_full_event_envelope() {
    let doc = JsonValue::Obj(vec![
        ("name".to_string(), s("accessRuleCreated")),
        ("timestamp".to_string(), JsonValue::Int(1700000000)),
        ("uuid".to_string(), s("evt-1")),
        (
            "data".to_string(),
            JsonValue::Obj(vec![
                ("id".to_string(), s("rule-9")),
                ("name".to_string(), s("rule")),
                ("desc".to_string(), s("d")),
                ("blacklist_enabled".to_string(), JsonValue::Bool(true)),
                ("whitelist_enabled".to_string(), JsonValue::Bool(false)),
            ]),
        ),
    ]);
    let event = Event::from_json(doc).unwrap();
    assert_eq!(event.name, EventName::AccessRuleCreated);
    assert_eq!(event.timestamp, 1700000000);
    assert_eq!(event.uuid, "evt-1");
    assert_eq!(event.data.get_event_source(), "accesslist-api");
    match event.data {
        EventPayload::AccessRuleCreated(e) => {
            assert_eq!(e.id, "rule-9");
            assert!(e.blacklist_enabled);
            assert!(!e.whitelist_enabled);
        }
        other => panic!("wrong payload: {:?}", other),
    }
}

#[test]
fn envelope_with_unknown_name_fails() {
    let doc = JsonValue::Obj(vec![
        ("name".to_string(), s("noSuchEvent")),
        ("timestamp".to_string(), JsonValue::Int(1)),
        ("uuid".to_string(), s("u")),
        ("data".to_string(), JsonValue::Obj(vec![])),
    ]);
    assert!(Event::from_json(doc).is_err());
}
