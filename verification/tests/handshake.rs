use zoraxy_plugin::handshake::{
    recv_configuration_spec, serve_and_recv_outcome, serve_intro_spect, HandshakeError,
    HandshakeOutcome,
};
use zoraxy_plugin::types::introspection::{IntroSpect, PluginMetadata, PluginType};

fn helloworld_intro_spect() -> IntroSpect {
    let metadata = PluginMetadata::new(PluginType::Utilities)
        .with_id("com.example.helloworld")
        .with_name("Hello World Plugin")
        .with_author("foobar")
        .with_contact("admin@example.com")
        .with_description("A simple hello world plugin")
        .with_url("https://example.com")
        .with_version((1, 0, 0));
    IntroSpect::new(metadata).with_ui_path("/")
}

fn helloworld_expected_json() -> &'static str {
    r#"{
  "id": "com.example.helloworld",
  "name": "Hello World Plugin",
  "author": "foobar",
  "contact": "admin@example.com",
  "description": "A simple hello world plugin",
  "url": "https://example.com",
  "type": 1,
  "version_major": 1,
  "version_minor": 0,
  "version_patch": 0,
  "ui_path": "/"
}"#
}

#[test]
fn test_serve_intro_spect_helloworld() {
    let args = vec!["plugin".to_string(), "-introspect".to_string()];

    let result = serve_intro_spect(&args, &helloworld_intro_spect());
    assert!(result.is_ok());
    let intro_spect_json = result.unwrap();

    assert_eq!(intro_spect_json, helloworld_expected_json());
}

#[test]
fn test_serve_intro_spect_no_flag() {
    let intro_spect = helloworld_intro_spect();
    let args = vec!["plugin".to_string()];

    let result = serve_intro_spect(&args, &intro_spect);
    assert!(result.is_err());
}

#[test]
fn test_recv_configuration_spec() {
    let spec = r#"{
            "port": 8080,
            "runtime_const": {
                "zoraxy_version": "1.2.3",
                "zoraxy_uuid": "abcd-efgh-ijkl",
                "development_build": true
            },
            "api_key": "my_api_key",
            "zoraxy_port": 9090
        }"#;

    let args = vec![
        "plugin".to_string(),
        "-configure".to_string(),
        spec.to_string(),
    ];

    let result = recv_configuration_spec(args);
    assert!(result.is_ok());
    let config_spec = result.unwrap();

    assert_eq!(config_spec.port, 8080);
    assert_eq!(config_spec.runtime_constants.zoraxy_version, "1.2.3");
    assert_eq!(config_spec.runtime_constants.zoraxy_uuid, "abcd-efgh-ijkl");
    assert!(config_spec.runtime_constants.development_build);
    assert_eq!(config_spec.api_key.unwrap(), "my_api_key");
    assert_eq!(config_spec.zoraxy_port, 9090);
}

#[test]
fn recv_configuration_spec_equals_form() {
    let arg = "-configure={\"port\":8080,\"runtime_const\":{\"zoraxy_version\":\"1.2.3\",\"zoraxy_uuid\":\"abcd\",\"development_build\":false},\"zoraxy_port\":9090}";
    let args = vec!["plugin".to_string(), arg.to_string()];

    let config_spec = recv_configuration_spec(args).unwrap();
    assert_eq!(config_spec.port, 8080);
    assert_eq!(config_spec.runtime_constants.zoraxy_version, "1.2.3");
    assert_eq!(config_spec.runtime_constants.zoraxy_uuid, "abcd");
    assert!(!config_spec.runtime_constants.development_build);
    assert!(config_spec.api_key.is_none());
    assert_eq!(config_spec.zoraxy_port, 9090);
}

#[test]
fn recv_configuration_spec_missing_port_fails() {
    let spec = r#"{
            "runtime_const": {
                "zoraxy_version": "1.2.3",
                "zoraxy_uuid": "abcd",
                "development_build": true
            },
            "zoraxy_port": 9090
        }"#;
    let args = vec![
        "plugin".to_string(),
        "-configure".to_string(),
        spec.to_string(),
    ];

    let result = recv_configuration_spec(args);
    assert!(matches!(
        result,
        Err(HandshakeError::InvalidConfigureSchema)
    ));
}

#[test]
fn recv_configuration_spec_no_flag() {
    let args = vec!["plugin".to_string()];
    let result = recv_configuration_spec(args);
    assert!(matches!(result, Err(HandshakeError::MissingConfigureFlag)));
}

#[test]
fn recv_configuration_spec_flag_without_payload() {
    let args = vec!["plugin".to_string(), "-configure".to_string()];
    let result = recv_configuration_spec(args);
    assert!(matches!(
        result,
        Err(HandshakeError::MissingConfigurePayload)
    ));
}

#[test]
fn recv_configuration_spec_malformed_payload() {
    let args = vec![
        "plugin".to_string(),
        "-configure".to_string(),
        "{not json".to_string(),
    ];
    let result = recv_configuration_spec(args);
    match result {
        Err(HandshakeError::MalformedConfigurePayload(msg)) => {
            assert!(!msg.is_empty());
        }
        other => panic!("expected a malformed-payload error, got {:?}", other),
    }
}

#[test]
fn recv_configuration_spec_out_of_range_port_fails() {
    let arg = "-configure={\"port\":70000,\"runtime_const\":{\"zoraxy_version\":\"1\",\"zoraxy_uuid\":\"u\",\"development_build\":false},\"zoraxy_port\":1}";
    let args = vec!["plugin".to_string(), arg.to_string()];
    let result = recv_configuration_spec(args);
    assert!(matches!(
        result,
        Err(HandshakeError::InvalidConfigureSchema)
    ));
}

#[test]
fn serve_and_recv_outcome_prefers_introspection() {
    let args = vec!["plugin".to_string(), "-introspect".to_string()];
    let outcome = serve_and_recv_outcome(args, &helloworld_intro_spect());
    match outcome {
        HandshakeOutcome::ServeIntrospection(json) => {
            assert_eq!(json, helloworld_expected_json());
        }
        other => panic!("expected introspection, got {:?}", other),
    }
}

#[test]
fn serve_and_recv_outcome_configures() {
    let arg = "-configure={\"port\":1,\"runtime_const\":{\"zoraxy_version\":\"1\",\"zoraxy_uuid\":\"u\",\"development_build\":false},\"zoraxy_port\":2}";
    let args = vec!["plugin".to_string(), arg.to_string()];
    let outcome = serve_and_recv_outcome(args, &helloworld_intro_spect());
    match outcome {
        HandshakeOutcome::Configured(c) => {
            assert_eq!(c.port, 1);
            assert_eq!(c.zoraxy_port, 2);
        }
        other => panic!("expected a configuration, got {:?}", other),
    }
}

#[test]
fn handshake_error_messages() {
    assert_eq!(
        HandshakeError::MissingConfigureFlag.message(),
        "no -configure flag found"
    );
    assert_eq!(
        HandshakeError::MissingIntrospectFlag.message(),
        "no -introspect flag found"
    );
    assert_eq!(
        HandshakeError::MissingConfigurePayload.message(),
        "No configure spec provided after -configure"
    );
}
