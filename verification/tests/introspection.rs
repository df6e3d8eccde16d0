use zoraxy_plugin::types::events::EventName;
use zoraxy_plugin::types::introspection::{
    DynamicCaptureSettings, IntroSpect, PermittedApiEndpoint, PluginMetadata, PluginType,
    StaticCaptureSettings, SubscriptionsSettings,
};
use zoraxy_plugin::ControlStatusCode;

fn base_metadata() -> PluginMetadata {
    PluginMetadata::new(PluginType::Router)
        .with_id("com.example.router")
        .with_name("Router")
        .with_author("a")
        .with_description("d")
        .with_url("https://example.com")
        .with_version((2, 1, 3))
}

#[test]
fn serializing_twice_is_byte_identical() {
    let intro = IntroSpect::new(base_metadata())
        .with_static_capture_settings(
            StaticCaptureSettings::new("/s_handler")
                .add_static_capture_path("/a")
                .add_static_capture_path("/b"),
        )
        .with_ui_path("/ui");
    assert_eq!(intro.to_json(), intro.to_json());
}

#[test]
fn empty_contact_is_omitted() {
    let intro = IntroSpect::new(base_metadata());
    let json = intro.to_json();
    assert!(!json.contains("\"contact\""));
    assert!(json.contains("\"type\": 0"));
}

#[test]
fn full_document_matches_expected_layout() {
    let intro = IntroSpect::new(base_metadata())
        .with_static_capture_settings(
            StaticCaptureSettings::new("/s_handler").add_static_capture_path("/a"),
        )
        .with_dynamic_capture_settings(DynamicCaptureSettings::new("/d_sniff", "/d_handler"))
        .with_ui_path("/ui")
        .with_subscriptions(
            SubscriptionsSettings::new("/notifyme")
                .add_event_subscription(EventName::BlacklistedIpBlocked, "count blocks"),
        )
        .add_permitted_api_endpoint(
            PermittedApiEndpoint::new("GET", "/api/proxy/list").with_reason("list rules"),
        );
    let expected = r#"{
  "id": "com.example.router",
  "name": "Router",
  "author": "a",
  "description": "d",
  "url": "https://example.com",
  "type": 0,
  "version_major": 2,
  "version_minor": 1,
  "version_patch": 3,
  "static_capture_paths": [
    {
      "capture_path": "/a"
    }
  ],
  "static_capture_ingress": "/s_handler",
  "dynamic_capture_sniff": "/d_sniff",
  "dynamic_capture_ingress": "/d_handler",
  "ui_path": "/ui",
  "subscription_path": "/notifyme",
  "subscriptions_events": {
    "blacklistedIpBlocked": "count blocks"
  },
  "permitted_api_endpoints": [
    {
      "method": "GET",
      "endpoint": "/api/proxy/list",
      "reason": "list rules"
    }
  ]
}"#;
    assert_eq!(intro.to_json(), expected);
}

#[test]
fn empty_capture_paths_serialize_as_empty_array() {
    let intro = IntroSpect::new(base_metadata())
        .with_static_capture_settings(StaticCaptureSettings::new("/s"));
    let json = intro.to_json();
    assert!(json.contains("\"static_capture_paths\": []"));
}

#[test]
fn string_escaping_in_document() {
    let metadata = PluginMetadata::new(PluginType::Utilities)
        .with_id("id")
        .with_name("say \"hi\"\n")
        .with_author("a")
        .with_description("d")
        .with_url("u");
    let json = IntroSpect::new(metadata).to_json();
    assert!(json.contains(r#""name": "say \"hi\"\n""#));
}

#[test]
fn subscription_reason_is_replaced_not_duplicated() {
    let subs = SubscriptionsSettings::new("/n")
        .add_event_subscription(EventName::CustomEvent, "first")
        .add_event_subscription(EventName::CustomEvent, "second");
    let intro = IntroSpect::new(base_metadata()).with_subscriptions(subs);
    let json = intro.to_json();
    assert!(json.contains("\"customEvent\": \"second\""));
    assert!(!json.contains("first"));
}

#[test]
fn plugin_type_codes() {
    assert_eq!(PluginType::Router.code(), 0);
    assert_eq!(PluginType::Utilities.code(), 1);
}

#[test]
fn control_status_codes() {
    assert_eq!(ControlStatusCode::Captured.code(), 280);
    assert_eq!(ControlStatusCode::UnHandled.code(), 284);
    assert_eq!(ControlStatusCode::Error.code(), 580);
}

#[test]
fn multi_digit_numbers_render_in_decimal() {
    let metadata = PluginMetadata::new(PluginType::Utilities)
        .with_id("id")
        .with_name("n")
        .with_author("a")
        .with_description("d")
        .with_url("u")
        .with_version((12, 205, 0));
    let json = IntroSpect::new(metadata).to_json();
    assert!(json.contains("\"version_major\": 12"));
    assert!(json.contains("\"version_minor\": 205"));
    assert!(json.contains("\"version_patch\": 0"));
}

#[test]
fn control_characters_are_escaped_as_hex() {
    let metadata = PluginMetadata::new(PluginType::Utilities)
        .with_id("id")
        .with_name("a\u{1}b\tc\\d")
        .with_author("a")
        .with_description("d")
        .with_url("u");
    let json = IntroSpect::new(metadata).to_json();
    assert!(json.contains(r#""name": "a\u0001b\tc\\d""#));
}
