use vstd::prelude::*;
use crate::json::{
    JsonValue, get_bool_field, get_opt_str_field, get_str_field, get_u16_field, obj_get,
    spec_bool_field, spec_obj_get, spec_opt_str_field, spec_str_field, spec_u16_field,
};

verus! {

/// Host constants handed over in the configuration payload.
#[derive(Debug, Clone)]
pub struct RuntimeConstants {
    /// The host's version string.
    pub zoraxy_version: String,
    /// The host instance's identifier.
    pub zoraxy_uuid: String,
    /// Whether the host is a development build.
    pub development_build: bool,
}

/// The runtime configuration the host starts the plugin with: the port to
/// listen on, host constants, an optional API key, and the host's own port.
#[derive(Debug, Clone)]
pub struct ConfigureSpec {
    /// The loopback port the plugin must listen on.
    pub port: u16,
    /// Host constants.
    pub runtime_constants: RuntimeConstants,
    /// API key for calling back into the host, when endpoints are permitted.
    pub api_key: Option<String>,
    /// The port the host itself runs on.
    pub zoraxy_port: u16,
}

/// The host constants held in a JSON document, if it decodes: an object
/// with the version and identifier strings and the development flag.
pub open spec fn spec_runtime_constants_of(v: JsonValue) -> Option<RuntimeConstants> {
    match v {
        JsonValue::Obj(es) => {
            let version = spec_str_field(es@, "zoraxy_version"@);
            let uuid = spec_str_field(es@, "zoraxy_uuid"@);
            let dev = spec_bool_field(es@, "development_build"@);
            if version is Some && uuid is Some && dev is Some {
                Some(
                    RuntimeConstants {
                        zoraxy_version: version->0,
                        zoraxy_uuid: uuid->0,
                        development_build: dev->0,
                    },
                )
            } else {
                None
            }
        },
        _ => None,
    }
}

/// The configuration held in a JSON document, if it decodes: an object with
/// the two ports in unsigned 16-bit range, the host-constant object, and an
/// optional API key; unknown keys are ignored.
pub open spec fn spec_configure_of(v: JsonValue) -> Option<ConfigureSpec> {
    match v {
        JsonValue::Obj(es) => {
            let port = spec_u16_field(es@, "port"@);
            let constants = match spec_obj_get(es@, "runtime_const"@) {
                Some(rv) => spec_runtime_constants_of(rv),
                None => None,
            };
            let api_key = spec_opt_str_field(es@, "api_key"@);
            let zoraxy_port = spec_u16_field(es@, "zoraxy_port"@);
            if port is Some && constants is Some && api_key is Some && zoraxy_port is Some {
                Some(
                    ConfigureSpec {
                        port: port->0,
                        runtime_constants: constants->0,
                        api_key: api_key->0,
                        zoraxy_port: zoraxy_port->0,
                    },
                )
            } else {
                None
            }
        },
        _ => None,
    }
}

fn runtime_constants_from(v: &JsonValue) -> (r: Option<RuntimeConstants>)
    ensures
        r == spec_runtime_constants_of(*v),
{
    match v {
        JsonValue::Obj(es) => {
            let version = get_str_field(es, "zoraxy_version");
            let uuid = get_str_field(es, "zoraxy_uuid");
            let dev = get_bool_field(es, "development_build");
            match (version, uuid, dev) {
                (Some(version), Some(uuid), Some(dev)) => Some(
                    RuntimeConstants {
                        zoraxy_version: version,
                        zoraxy_uuid: uuid,
                        development_build: dev,
                    },
                ),
                _ => None,
            }
        },
        _ => None,
    }
}

impl ConfigureSpec {
    /// Decodes a configuration from a parsed JSON document.
    pub fn from_json_value(v: &JsonValue) -> (r: Option<ConfigureSpec>)
        ensures
            r == spec_configure_of(*v),
    {
        match v {
            JsonValue::Obj(es) => {
                let port = get_u16_field(es, "port");
                let constants = match obj_get(es, "runtime_const") {
                    Some(rv) => runtime_constants_from(rv),
                    None => None,
                };
                let api_key = get_opt_str_field(es, "api_key");
                let zoraxy_port = get_u16_field(es, "zoraxy_port");
                match (port, constants, api_key, zoraxy_port) {
                    (Some(port), Some(constants), Some(api_key), Some(zoraxy_port)) => Some(
                        ConfigureSpec {
                            port,
                            runtime_constants: constants,
                            api_key,
                            zoraxy_port,
                        },
                    ),
                    _ => None,
                }
            },
            _ => None,
        }
    }
}

} // verus!
