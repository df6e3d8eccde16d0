use vstd::prelude::*;
use vstd::string::StringExecFns;
use crate::json::{
    JsonValue, get_int_field, get_str_field, obj_get, parse_json, parsed_json, spec_int_field,
    spec_obj_get, spec_str_field, spec_str_items, strings_of_array,
};

verus! {

/// The largest sniff body the pipeline accepts, in bytes.
pub const DEFAULT_SNIFF_BODY_LIMIT: usize = 256 * 1024;

/// The sniff payload the host posts before committing to forward traffic:
/// a description of the candidate request.
#[derive(Debug)]
pub struct DynamicSniffForwardRequest {
    pub method: String,
    pub hostname: String,
    pub url: String,
    /// The candidate request's headers, each with its values.
    pub header: Vec<(String, Vec<String>)>,
    pub remote_addr: String,
    pub host: String,
    pub request_uri: String,
    pub proto: String,
    pub proto_major: i32,
    pub proto_minor: i32,
    /// The correlation id the host sends in its own header, not in the body;
    /// never part of the JSON body itself.
    pub request_uuid: Option<String>,
}

impl DynamicSniffForwardRequest {
    /// The correlation id taken from the host's header, if one was sent.
    pub fn request_uuid(&self) -> (r: &Option<String>)
        ensures
            r == self.request_uuid,
    {
        &self.request_uuid
    }

    /// Attaches the correlation id taken from the host's header.
    pub fn set_request_uuid(&mut self, value: Option<String>)
        ensures
            final(self).request_uuid == value,
            final(self).method == old(self).method,
            final(self).hostname == old(self).hostname,
            final(self).url == old(self).url,
            final(self).header == old(self).header,
            final(self).remote_addr == old(self).remote_addr,
            final(self).host == old(self).host,
            final(self).request_uri == old(self).request_uri,
            final(self).proto == old(self).proto,
            final(self).proto_major == old(self).proto_major,
            final(self).proto_minor == old(self).proto_minor,
    {
        self.request_uuid = value;
    }

    /// Decodes the sniff payload body. Succeeds exactly when the text is
    /// well-formed JSON of the expected shape; the correlation id is left
    /// empty for the caller to attach from the host's header.
    pub fn from_body_text(body: &str) -> (r: Result<
        DynamicSniffForwardRequest,
        SniffExtractorError,
    >)
        ensures
            r is Ok <==> (parsed_json(body@) matches Some(v) && spec_sniff_decodes(v)),
            r matches Ok(p) ==> parsed_json(body@) matches Some(v) && spec_sniff_matches(v, p),
            r matches Err(e) ==> e is Json,
    {
        match parse_json(body) {
            Ok(v) => match sniff_from_json(v) {
                Some(p) => Ok(p),
                None => Err(
                    SniffExtractorError::Json(
                        String::from_str("sniff payload does not match the expected shape"),
                    ),
                ),
            },
            Err(m) => Err(SniffExtractorError::Json(m)),
        }
    }
}

/// Whether a header value decodes: it must be an array of strings.
pub open spec fn spec_header_val_ok(v: JsonValue) -> bool {
    v matches JsonValue::Arr(items) && spec_str_items(items@) is Some
}

/// Whether all header entries decode.
pub open spec fn spec_headers_decode(entries: Seq<(String, JsonValue)>) -> bool {
    forall|i: int| 0 <= i < entries.len() ==> spec_header_val_ok(#[trigger] entries[i].1)
}

/// Whether `out` is exactly the decoded header map.
pub open spec fn spec_headers_match(
    entries: Seq<(String, JsonValue)>,
    out: Seq<(String, Vec<String>)>,
) -> bool {
    &&& out.len() == entries.len()
    &&& forall|i: int|
        0 <= i < entries.len() ==> (#[trigger] out[i]).0 == entries[i].0 && (
        entries[i].1 matches JsonValue::Arr(items) && spec_str_items(items@) == Some(out[i].1@))
}

#[verifier::loop_isolation(false)]
fn headers_from(entries: &Vec<(String, JsonValue)>) -> (r: Option<Vec<(String, Vec<String>)>>)
    ensures
        r is Some <==> spec_headers_decode(entries@),
        r matches Some(out) ==> spec_headers_match(entries@, out@),
{
    let mut out: Vec<(String, Vec<String>)> = Vec::new();
    let mut i: usize = 0;
    while i < entries.len()
        invariant
            i <= entries@.len(),
            out@.len() == i,
            forall|j: int|
                0 <= j < i ==> (#[trigger] out@[j]).0 == entries@[j].0 && (
                entries@[j].1 matches JsonValue::Arr(items) && spec_str_items(items@) == Some(
                    out@[j].1@,
                )),
        decreases entries@.len() - i,
    {
        match &entries[i].1 {
            JsonValue::Arr(items) => match strings_of_array(items) {
                Some(vals) => {
                    out.push((entries[i].0.clone(), vals));
                },
                None => {
                    assert(!spec_header_val_ok(entries@[i as int].1));
                    return None;
                },
            },
            _ => {
                assert(!spec_header_val_ok(entries@[i as int].1));
                return None;
            },
        }
        i = i + 1;
    }
    assert forall|k: int| 0 <= k < entries@.len() implies spec_header_val_ok(
        #[trigger] entries@[k].1,
    ) by {
        assert((out@[k]).0 == entries@[k].0);
    }
    Some(out)
}

/// The integer under `key` when it fits a signed 32-bit value.
pub open spec fn spec_i32_field(entries: Seq<(String, JsonValue)>, key: Seq<char>) -> Option<
    i32,
> {
    match spec_int_field(entries, key) {
        Some(i) => if -0x8000_0000 <= i <= 0x7fff_ffff {
            Some(i as i32)
        } else {
            None
        },
        None => None,
    }
}

fn get_i32_field(entries: &Vec<(String, JsonValue)>, key: &str) -> (r: Option<i32>)
    ensures
        r == spec_i32_field(entries@, key@),
{
    match get_int_field(entries, key) {
        Some(i) => if -0x8000_0000 <= i && i <= 0x7fff_ffff {
            Some(i as i32)
        } else {
            None
        },
        None => None,
    }
}

/// Whether a JSON document decodes as a sniff payload.
pub open spec fn spec_sniff_decodes(v: JsonValue) -> bool {
    match v {
        JsonValue::Obj(es) => {
            &&& spec_str_field(es@, "method"@) is Some
            &&& spec_str_field(es@, "hostname"@) is Some
            &&& spec_str_field(es@, "url"@) is Some
            &&& (spec_obj_get(es@, "header"@) matches Some(hv) && hv matches JsonValue::Obj(hes)
                && spec_headers_decode(hes@))
            &&& spec_str_field(es@, "remote_addr"@) is Some
            &&& spec_str_field(es@, "host"@) is Some
            &&& spec_str_field(es@, "request_uri"@) is Some
            &&& spec_str_field(es@, "proto"@) is Some
            &&& spec_i32_field(es@, "proto_major"@) is Some
            &&& spec_i32_field(es@, "proto_minor"@) is Some
        },
        _ => false,
    }
}

/// Whether `p` is exactly the sniff payload held in the document, with no
/// correlation id attached yet.
pub open spec fn spec_sniff_matches(v: JsonValue, p: DynamicSniffForwardRequest) -> bool {
    match v {
        JsonValue::Obj(es) => {
            &&& spec_str_field(es@, "method"@) == Some(p.method)
            &&& spec_str_field(es@, "hostname"@) == Some(p.hostname)
            &&& spec_str_field(es@, "url"@) == Some(p.url)
            &&& (spec_obj_get(es@, "header"@) matches Some(hv) && hv matches JsonValue::Obj(hes)
                && spec_headers_match(hes@, p.header@))
            &&& spec_str_field(es@, "remote_addr"@) == Some(p.remote_addr)
            &&& spec_str_field(es@, "host"@) == Some(p.host)
            &&& spec_str_field(es@, "request_uri"@) == Some(p.request_uri)
            &&& spec_str_field(es@, "proto"@) == Some(p.proto)
            &&& spec_i32_field(es@, "proto_major"@) == Some(p.proto_major)
            &&& spec_i32_field(es@, "proto_minor"@) == Some(p.proto_minor)
            &&& p.request_uuid is None
        },
        _ => false,
    }
}

fn sniff_from_json(v: JsonValue) -> (r: Option<DynamicSniffForwardRequest>)
    ensures
        r is Some <==> spec_sniff_decodes(v),
        r matches Some(p) ==> spec_sniff_matches(v, p),
{
    match v {
        JsonValue::Obj(es) => {
            let method = get_str_field(&es, "method");
            let hostname = get_str_field(&es, "hostname");
            let url = get_str_field(&es, "url");
            let header = match obj_get(&es, "header") {
                Some(JsonValue::Obj(hes)) => headers_from(hes),
                _ => None,
            };
            let remote_addr = get_str_field(&es, "remote_addr");
            let host = get_str_field(&es, "host");
            let request_uri = get_str_field(&es, "request_uri");
            let proto = get_str_field(&es, "proto");
            let proto_major = get_i32_field(&es, "proto_major");
            let proto_minor = get_i32_field(&es, "proto_minor");
            match (
                method,
                hostname,
                url,
                header,
                remote_addr,
                host,
                request_uri,
                proto,
                proto_major,
                proto_minor,
            ) {
                (
                    Some(method),
                    Some(hostname),
                    Some(url),
                    Some(header),
                    Some(remote_addr),
                    Some(host),
                    Some(request_uri),
                    Some(proto),
                    Some(proto_major),
                    Some(proto_minor),
                ) => Some(
                    DynamicSniffForwardRequest {
                        method,
                        hostname,
                        url,
                        header,
                        remote_addr,
                        host,
                        request_uri,
                        proto,
                        proto_major,
                        proto_minor,
                        request_uuid: None,
                    },
                ),
                _ => None,
            }
        },
        _ => None,
    }
}

/// Why a sniff payload could not be extracted from the request.
#[derive(Debug)]
pub enum SniffExtractorError {
    /// Reading the request body failed; the transport's message is kept.
    Body(String),
    /// The body is not a well-formed sniff payload; the cause is kept.
    Json(String),
}

/// The description a sniff extraction error carries.
pub open spec fn spec_sniff_error_message(e: SniffExtractorError) -> Seq<char> {
    match e {
        SniffExtractorError::Body(m) => "failed to read sniff request body: "@ + m@,
        SniffExtractorError::Json(m) => "failed to decode sniff payload: "@ + m@,
    }
}

impl SniffExtractorError {
    /// Describes the failure in words.
    pub fn message(&self) -> (r: String)
        ensures
            r@ == spec_sniff_error_message(*self),
    {
        match self {
            SniffExtractorError::Body(m) => String::from_str(
                "failed to read sniff request body: ",
            ).concat(m.as_str()),
            SniffExtractorError::Json(m) => String::from_str(
                "failed to decode sniff payload: ",
            ).concat(m.as_str()),
        }
    }

    /// The status such a failure is answered with: an internal error.
    pub fn status_code(&self) -> (c: u16)
        ensures
            c == 500,
    {
        500
    }
}

/// The verdict of the plugin's sniff logic on a candidate request.
#[derive(Debug, Clone, Copy, PartialEq, Eq, Structural)]
pub enum SniffDecision {
    /// Capture the request: the host should forward it to the ingress.
    Accept,
    /// Pass on the request: the host should try its other routes.
    Skip,
}

impl SniffDecision {
    /// The status code the decision is answered with.
    pub open spec fn spec_status_code(&self) -> u16 {
        match self {
            SniffDecision::Accept => 200,
            SniffDecision::Skip => 501,
        }
    }

    /// The status code the decision is answered with: success for a
    /// capture, not-implemented for a pass.
    pub fn status_code(&self) -> (c: u16)
        ensures
            c == self.spec_status_code(),
    {
        match self {
            SniffDecision::Accept => 200,
            SniffDecision::Skip => 501,
        }
    }

    /// The body text the decision is answered with.
    pub open spec fn spec_body_text(&self) -> Seq<char> {
        match self {
            SniffDecision::Accept => "OK"@,
            SniffDecision::Skip => "SKIP"@,
        }
    }

    /// The body text the decision is answered with.
    pub fn body_text(&self) -> (r: String)
        ensures
            r@ == self.spec_body_text(),
    {
        match self {
            SniffDecision::Accept => String::from_str("OK"),
            SniffDecision::Skip => String::from_str("SKIP"),
        }
    }
}

/// The decision mapping is total and exhaustive: every decision is answered
/// with exactly one of the two statuses, success exactly for a capture and
/// not-implemented exactly for a pass; no third outcome exists.
pub proof fn lemma_sniff_decision_total(d: SniffDecision)
    ensures
        d.spec_status_code() == 200 || d.spec_status_code() == 501,
        d.spec_status_code() == 200 <==> d == SniffDecision::Accept,
        d.spec_status_code() == 501 <==> d == SniffDecision::Skip,
{
}

} // verus!
