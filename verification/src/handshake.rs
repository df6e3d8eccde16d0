use vstd::prelude::*;
use vstd::string::StringExecFns;
use crate::json::{parse_json, parsed_json};
use crate::strutil::{chars_of, chars_start_with, copy_range, str_eq, string_of_chars};
use crate::types::configuration::{ConfigureSpec, spec_configure_of};
use crate::types::introspection::{IntroSpect, spec_intro_json};

verus! {

// The two-phase start-up protocol with the host: the host first probes the
// plugin with an introspection flag and expects the capability document on
// standard output, then launches it again with a configuration flag whose
// JSON payload configures the plugin's server.

/// Why a handshake step failed.
#[derive(Debug)]
pub enum HandshakeError {
    /// The introspection flag is not the designated argument.
    MissingIntrospectFlag,
    /// No configuration flag occurs among the arguments.
    MissingConfigureFlag,
    /// The configuration flag is the last argument, with no payload after it.
    MissingConfigurePayload,
    /// The payload is not well-formed JSON; the parser's message is kept.
    MalformedConfigurePayload(String),
    /// The payload is well-formed JSON but not a configuration document.
    InvalidConfigureSchema,
}

/// The description a handshake error carries.
pub open spec fn spec_handshake_message(e: HandshakeError) -> Seq<char> {
    match e {
        HandshakeError::MissingIntrospectFlag => "no -introspect flag found"@,
        HandshakeError::MissingConfigureFlag => "no -configure flag found"@,
        HandshakeError::MissingConfigurePayload => "No configure spec provided after -configure"@,
        HandshakeError::MalformedConfigurePayload(m) => "failed to decode configure spec: "@ + m@,
        HandshakeError::InvalidConfigureSchema => (
        "configure spec does not match the expected schema"@),
    }
}

impl HandshakeError {
    /// Describes the failure in words.
    pub fn message(&self) -> (r: String)
        ensures
            r@ == spec_handshake_message(*self),
    {
        match self {
            HandshakeError::MissingIntrospectFlag => String::from_str("no -introspect flag found"),
            HandshakeError::MissingConfigureFlag => String::from_str("no -configure flag found"),
            HandshakeError::MissingConfigurePayload => String::from_str(
                "No configure spec provided after -configure",
            ),
            HandshakeError::MalformedConfigurePayload(m) => String::from_str(
                "failed to decode configure spec: ",
            ).concat(m.as_str()),
            HandshakeError::InvalidConfigureSchema => String::from_str(
                "configure spec does not match the expected schema",
            ),
        }
    }
}

/// Whether the designated argument asks for introspection.
pub open spec fn spec_introspect_requested(args: Seq<String>) -> bool {
    args.len() > 1 && args[1]@ == "-introspect"@
}

/// What scanning the arguments for the configuration flag yields: nothing,
/// the flag without a payload, or the payload text. The first match wins:
/// either a bare flag followed by the payload as the next argument, or a
/// single argument carrying the payload after an equals sign.
pub open spec fn find_config_payload(args: Seq<String>) -> Option<Option<Seq<char>>>
    decreases args.len(),
{
    if args.len() == 0 {
        None
    } else if args[0]@ == "-configure"@ {
        if args.len() >= 2 {
            Some(Some(args[1]@))
        } else {
            Some(None)
        }
    } else if args[0]@.len() >= "-configure="@.len() && args[0]@.take("-configure="@.len() as int)
        == "-configure="@ {
        Some(Some(args[0]@.skip("-configure="@.len() as int)))
    } else {
        find_config_payload(args.drop_first())
    }
}

/// The configuration payload among the arguments, if one is there.
pub open spec fn spec_config_payload(args: Seq<String>) -> Option<Seq<char>> {
    match find_config_payload(args) {
        Some(Some(p)) => Some(p),
        _ => None,
    }
}

/// The configuration the arguments carry, if the flag is present, the
/// payload parses, and the document matches the schema.
pub open spec fn spec_config_value(args: Seq<String>) -> Option<ConfigureSpec> {
    match spec_config_payload(args) {
        Some(p) => match parsed_json(p) {
            Some(jv) => spec_configure_of(jv),
            None => None,
        },
        None => None,
    }
}

/// Whether the given error is the one owed for these arguments.
pub open spec fn spec_config_error(args: Seq<String>, e: HandshakeError) -> bool {
    match e {
        HandshakeError::MissingConfigureFlag => find_config_payload(args) is None,
        HandshakeError::MissingConfigurePayload => find_config_payload(args) matches Some(p)
            && p is None,
        HandshakeError::MalformedConfigurePayload(_) => spec_config_payload(args) matches Some(p)
            && parsed_json(p) is None,
        HandshakeError::InvalidConfigureSchema => spec_config_payload(args) matches Some(p)
            && parsed_json(p) matches Some(jv) && spec_configure_of(jv) is None,
        _ => false,
    }
}

fn decode_config_payload(payload: &str) -> (r: Result<ConfigureSpec, HandshakeError>)
    ensures
        r is Ok <==> (parsed_json(payload@) matches Some(jv) && spec_configure_of(jv) is Some),
        r matches Ok(c) ==> parsed_json(payload@) matches Some(jv) && spec_configure_of(jv)
            == Some(c),
        r matches Err(e) ==> match e {
            HandshakeError::MalformedConfigurePayload(_) => parsed_json(payload@) is None,
            HandshakeError::InvalidConfigureSchema => parsed_json(payload@) matches Some(jv)
                && spec_configure_of(jv) is None,
            _ => false,
        },
{
    match parse_json(payload) {
        Ok(jv) => match ConfigureSpec::from_json_value(&jv) {
            Some(c) => Ok(c),
            None => Err(HandshakeError::InvalidConfigureSchema),
        },
        Err(m) => Err(HandshakeError::MalformedConfigurePayload(m)),
    }
}

/// Reads the runtime configuration out of the start-up arguments: finds the
/// configuration flag, parses its JSON payload, and decodes the schema.
/// Succeeds exactly when all three steps do; the error says which step
/// failed.
#[verifier::loop_isolation(false)]
pub fn recv_configuration_spec(args: Vec<String>) -> (r: Result<ConfigureSpec, HandshakeError>)
    ensures
        r is Ok <==> spec_config_value(args@) is Some,
        r matches Ok(c) ==> spec_config_value(args@) == Some(c),
        r matches Err(e) ==> spec_config_error(args@, e),
{
    let mut i: usize = 0;
    assert(args@.skip(0) =~= args@);
    while i < args.len()
        invariant
            i <= args@.len(),
            find_config_payload(args@) == find_config_payload(args@.skip(i as int)),
        decreases args@.len() - i,
    {
        assert(args@.skip(i as int)[0] == args@[i as int]);
        if str_eq(args[i].as_str(), "-configure") {
            if i + 1 < args.len() {
                assert(args@.skip(i as int)[1] == args@[i + 1]);
                assert(find_config_payload(args@) == Some(Some(args@[i + 1]@)));
                return decode_config_payload(args[i + 1].as_str());
            } else {
                assert(args@.skip(i as int).len() < 2);
                return Err(HandshakeError::MissingConfigurePayload);
            }
        }
        let av = chars_of(args[i].as_str());
        let pv = chars_of("-configure=");
        if chars_start_with(av.as_slice(), pv.as_slice()) {
            let rest = copy_range(av.as_slice(), pv.len(), av.len());
            assert(rest@ =~= args@[i as int]@.skip("-configure="@.len() as int));
            assert(find_config_payload(args@) == Some(
                Some(args@[i as int]@.skip("-configure="@.len() as int)),
            ));
            let payload = string_of_chars(rest.as_slice());
            return decode_config_payload(payload.as_str());
        }
        assert(args@.skip(i as int).drop_first() =~= args@.skip(i + 1));
        i = i + 1;
    }
    assert(args@.skip(i as int).len() == 0);
    Err(HandshakeError::MissingConfigureFlag)
}

/// Answers an introspection probe: when the designated argument carries the
/// introspection flag, the capability document is rendered as canonical
/// JSON; otherwise the caller should go on to configuration.
pub fn serve_intro_spect(args: &[String], intro_spect: &IntroSpect) -> (r: Result<
    String,
    HandshakeError,
>)
    ensures
        r is Ok <==> spec_introspect_requested(args@),
        r matches Ok(s) ==> s@ == spec_intro_json(*intro_spect),
        r matches Err(e) ==> e is MissingIntrospectFlag,
{
    if args.len() > 1 && str_eq(args[1].as_str(), "-introspect") {
        Ok(intro_spect.to_json())
    } else {
        Err(HandshakeError::MissingIntrospectFlag)
    }
}

/// What the start-up arguments ask the plugin process to do.
#[derive(Debug)]
pub enum HandshakeOutcome {
    /// Print this capability document and exit successfully.
    ServeIntrospection(String),
    /// Serve with this configuration.
    Configured(ConfigureSpec),
    /// Report this failure and exit unsuccessfully.
    Failed(HandshakeError),
}

/// Decides the whole handshake: introspection is answered first; otherwise
/// the configuration is received, or its failure reported. The caller
/// prints and exits on the introspection outcome.
pub fn serve_and_recv_outcome(args: Vec<String>, intro_spect: &IntroSpect) -> (r:
    HandshakeOutcome)
    ensures
        r is ServeIntrospection <==> spec_introspect_requested(args@),
        r matches HandshakeOutcome::ServeIntrospection(s) ==> s@ == spec_intro_json(*intro_spect),
        !spec_introspect_requested(args@) ==> (r is Configured <==> spec_config_value(args@)
            is Some),
        r matches HandshakeOutcome::Configured(c) ==> spec_config_value(args@) == Some(c),
        r matches HandshakeOutcome::Failed(e) ==> !spec_introspect_requested(args@)
            && spec_config_error(args@, e),
{
    match serve_intro_spect(args.as_slice(), intro_spect) {
        Ok(s) => HandshakeOutcome::ServeIntrospection(s),
        Err(_) => match recv_configuration_spec(args) {
            Ok(c) => HandshakeOutcome::Configured(c),
            Err(e) => HandshakeOutcome::Failed(e),
        },
    }
}

} // verus!
