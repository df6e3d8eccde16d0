use vstd::prelude::*;
use vstd::string::StringExecFns;
use crate::json::{append_chars, append_dec, append_jstr, chars_to_string, jstr};
use crate::strutil::spec_dec;
use crate::types::events::{EventName, spec_event_key};

verus! {

/// What kind of plugin this is, as the host classifies it.
#[derive(Debug, Clone, Copy, PartialEq, Eq, Structural)]
pub enum PluginType {
    /// Routes traffic on the host's behalf.
    Router,
    /// A utility that does not route traffic itself.
    Utilities,
}

impl PluginType {
    /// The numeric code this kind carries in the capability document.
    pub open spec fn spec_code(&self) -> u8 {
        match self {
            PluginType::Router => 0,
            PluginType::Utilities => 1,
        }
    }

    /// The numeric code this kind carries in the capability document.
    pub fn code(&self) -> (c: u8)
        ensures
            c == self.spec_code(),
    {
        match self {
            PluginType::Router => 0,
            PluginType::Utilities => 1,
        }
    }
}

/// The identity of a plugin: who wrote it, what it is, and its version.
#[derive(Debug, Clone)]
pub struct PluginMetadata {
    /// Unique ID, conventionally in reverse domain-name notation.
    pub id: String,
    /// Human-readable name.
    pub name: String,
    /// Author name.
    pub author: String,
    /// Author contact; omitted from the capability document when empty.
    pub contact: String,
    /// What the plugin does.
    pub description: String,
    /// Project homepage or repository.
    pub url: String,
    /// What kind of plugin this is.
    pub plugin_type: PluginType,
    pub version_major: u8,
    pub version_minor: u8,
    pub version_patch: u8,
}

impl PluginMetadata {
    /// A fresh metadata record of the given kind, all text fields empty.
    pub fn new(plugin_type: PluginType) -> (r: Self)
        ensures
            r.id@ == Seq::<char>::empty(),
            r.name@ == Seq::<char>::empty(),
            r.author@ == Seq::<char>::empty(),
            r.contact@ == Seq::<char>::empty(),
            r.description@ == Seq::<char>::empty(),
            r.url@ == Seq::<char>::empty(),
            r.plugin_type == plugin_type,
            r.version_major == 0,
            r.version_minor == 0,
            r.version_patch == 0,
    {
        PluginMetadata {
            id: String::new(),
            name: String::new(),
            author: String::new(),
            contact: String::new(),
            description: String::new(),
            url: String::new(),
            plugin_type,
            version_major: 0,
            version_minor: 0,
            version_patch: 0,
        }
    }

    /// The same metadata with the ID replaced.
    pub fn with_id(self, id: &str) -> (r: Self)
        ensures
            r.id@ == id@,
            r == (PluginMetadata { id: r.id, ..self }),
    {
        PluginMetadata { id: String::from_str(id), ..self }
    }

    /// The same metadata with the name replaced.
    pub fn with_name(self, name: &str) -> (r: Self)
        ensures
            r.name@ == name@,
            r == (PluginMetadata { name: r.name, ..self }),
    {
        PluginMetadata { name: String::from_str(name), ..self }
    }

    /// The same metadata with the version triple replaced.
    pub fn with_version(self, version: (u8, u8, u8)) -> (r: Self)
        ensures
            r.version_major == version.0,
            r.version_minor == version.1,
            r.version_patch == version.2,
            r == (PluginMetadata {
                version_major: version.0,
                version_minor: version.1,
                version_patch: version.2,
                ..self
            }),
    {
        PluginMetadata {
            version_major: version.0,
            version_minor: version.1,
            version_patch: version.2,
            ..self
        }
    }

    /// The same metadata with the description replaced.
    pub fn with_description(self, description: &str) -> (r: Self)
        ensures
            r.description@ == description@,
            r == (PluginMetadata { description: r.description, ..self }),
    {
        PluginMetadata { description: String::from_str(description), ..self }
    }

    /// The same metadata with the author replaced.
    pub fn with_author(self, author: &str) -> (r: Self)
        ensures
            r.author@ == author@,
            r == (PluginMetadata { author: r.author, ..self }),
    {
        PluginMetadata { author: String::from_str(author), ..self }
    }

    /// The same metadata with the contact replaced.
    pub fn with_contact(self, contact: &str) -> (r: Self)
        ensures
            r.contact@ == contact@,
            r == (PluginMetadata { contact: r.contact, ..self }),
    {
        PluginMetadata { contact: String::from_str(contact), ..self }
    }

    /// The same metadata with the homepage URL replaced.
    pub fn with_url(self, url: &str) -> (r: Self)
        ensures
            r.url@ == url@,
            r == (PluginMetadata { url: r.url, ..self }),
    {
        PluginMetadata { url: String::from_str(url), ..self }
    }
}

/// One static-capture path rule.
#[derive(Debug, Clone)]
pub struct StaticCaptureRule {
    pub capture_path: String,
}

impl StaticCaptureRule {
    /// A rule for the given capture path.
    pub fn new(capture_path: &str) -> (r: Self)
        ensures
            r.capture_path@ == capture_path@,
    {
        StaticCaptureRule { capture_path: String::from_str(capture_path) }
    }
}

/// The static-capture advertisement: which paths the host should hand over,
/// and the ingress they are forwarded to.
#[derive(Debug, Clone)]
pub struct StaticCaptureSettings {
    /// The paths the host captures for this plugin.
    pub static_capture_paths: Vec<StaticCaptureRule>,
    /// The ingress path captured traffic is forwarded to.
    pub static_capture_ingress: String,
}

impl StaticCaptureSettings {
    /// Settings with the given ingress and no capture paths yet.
    pub fn new(static_capture_ingress: &str) -> (r: Self)
        ensures
            r.static_capture_ingress@ == static_capture_ingress@,
            r.static_capture_paths@.len() == 0,
    {
        StaticCaptureSettings {
            static_capture_paths: Vec::new(),
            static_capture_ingress: String::from_str(static_capture_ingress),
        }
    }

    /// The same settings with one more capture path appended.
    pub fn add_static_capture_path(self, rule: &str) -> (r: Self)
        ensures
            r.static_capture_ingress == self.static_capture_ingress,
            r.static_capture_paths@.len() == self.static_capture_paths@.len() + 1,
            forall|j: int|
                0 <= j < self.static_capture_paths@.len() ==> r.static_capture_paths@[j]
                    == self.static_capture_paths@[j],
            r.static_capture_paths@.last().capture_path@ == rule@,
    {
        let mut paths = self.static_capture_paths;
        paths.push(StaticCaptureRule::new(rule));
        StaticCaptureSettings {
            static_capture_paths: paths,
            static_capture_ingress: self.static_capture_ingress,
        }
    }
}

/// The dynamic-capture advertisement: the sniff path probed before capture,
/// and the ingress accepted traffic is forwarded to.
#[derive(Debug, Clone)]
pub struct DynamicCaptureSettings {
    /// The path the host sends sniff probes to.
    pub dynamic_capture_sniff: String,
    /// The ingress path accepted traffic is forwarded to.
    pub dynamic_capture_ingress: String,
}

impl DynamicCaptureSettings {
    /// Settings naming the sniff and ingress paths.
    pub fn new(dynamic_capture_sniff: &str, dynamic_capture_ingress: &str) -> (r: Self)
        ensures
            r.dynamic_capture_sniff@ == dynamic_capture_sniff@,
            r.dynamic_capture_ingress@ == dynamic_capture_ingress@,
    {
        DynamicCaptureSettings {
            dynamic_capture_sniff: String::from_str(dynamic_capture_sniff),
            dynamic_capture_ingress: String::from_str(dynamic_capture_ingress),
        }
    }
}

/// The event-subscription advertisement: where events are delivered and
/// which events are wanted, each with the reason it is subscribed.
#[derive(Debug, Clone)]
pub struct SubscriptionsSettings {
    /// The path event notifications are posted to.
    pub subscription_path: String,
    /// The subscribed events, each with a reason, keys unique.
    pub event_subscriptions: Vec<(EventName, String)>,
}

/// The position of the first entry for `e`, if the event is already
/// subscribed.
pub open spec fn first_sub_idx(entries: Seq<(EventName, String)>, e: EventName) -> Option<int>
    decreases entries.len(),
{
    if entries.len() == 0 {
        None
    } else if entries[0].0 == e {
        Some(0)
    } else {
        match first_sub_idx(entries.drop_first(), e) {
            Some(k) => Some(k + 1),
            None => None,
        }
    }
}

proof fn lemma_first_sub_idx(entries: Seq<(EventName, String)>, e: EventName, i: int)
    requires
        0 <= i < entries.len(),
        entries[i].0 == e,
        forall|j: int| 0 <= j < i ==> entries[j].0 != e,
    ensures
        first_sub_idx(entries, e) == Some(i),
    decreases entries.len(),
{
    if i == 0 {
    } else {
        assert(entries[0].0 != e);
        assert(entries.drop_first()[i - 1] == entries[i]);
        assert(forall|j: int| 0 <= j < i - 1 ==> entries.drop_first()[j] == entries[j + 1]);
        lemma_first_sub_idx(entries.drop_first(), e, i - 1);
    }
}

proof fn lemma_first_sub_idx_none(entries: Seq<(EventName, String)>, e: EventName)
    requires
        forall|j: int| 0 <= j < entries.len() ==> entries[j].0 != e,
    ensures
        first_sub_idx(entries, e) is None,
    decreases entries.len(),
{
    if entries.len() > 0 {
        assert(forall|j: int|
            0 <= j < entries.drop_first().len() ==> entries.drop_first()[j] == entries[j + 1]);
        lemma_first_sub_idx_none(entries.drop_first(), e);
    }
}

impl SubscriptionsSettings {
    /// Settings with the given delivery path and no subscriptions yet.
    pub fn new(subscription_path: &str) -> (r: Self)
        ensures
            r.subscription_path@ == subscription_path@,
            r.event_subscriptions@.len() == 0,
    {
        SubscriptionsSettings {
            subscription_path: String::from_str(subscription_path),
            event_subscriptions: Vec::new(),
        }
    }

    /// The same settings with `event` subscribed under `description`: an
    /// existing entry for the event is replaced in place, otherwise the
    /// entry is appended.
    pub fn add_event_subscription(self, event: EventName, description: &str) -> (r: Self)
        ensures
            r.subscription_path == self.subscription_path,
            match first_sub_idx(self.event_subscriptions@, event) {
                Some(i) => {
                    &&& r.event_subscriptions@.len() == self.event_subscriptions@.len()
                    &&& r.event_subscriptions@[i].0 == event
                    &&& r.event_subscriptions@[i].1@ == description@
                    &&& forall|j: int|
                        0 <= j < self.event_subscriptions@.len() && j != i
                            ==> r.event_subscriptions@[j] == self.event_subscriptions@[j]
                },
                None => {
                    &&& r.event_subscriptions@.len() == self.event_subscriptions@.len() + 1
                    &&& r.event_subscriptions@.last().0 == event
                    &&& r.event_subscriptions@.last().1@ == description@
                    &&& forall|j: int|
                        0 <= j < self.event_subscriptions@.len() ==> r.event_subscriptions@[j]
                            == self.event_subscriptions@[j]
                },
            },
    {
        let ghost orig = self.event_subscriptions@;
        let mut entries = self.event_subscriptions;
        let mut i: usize = 0;
        let mut found: bool = false;
        #[verifier::loop_isolation(false)]
        while i < entries.len() && !found
            invariant
                i <= entries@.len(),
                entries@ == orig,
                found ==> i < entries@.len() && entries@[i as int].0 == event,
                forall|j: int| 0 <= j < i ==> entries@[j].0 != event,
            decreases entries@.len() - i + (if found {
                0int
            } else {
                1int
            }),
        {
            if entries[i].0 == event {
                found = true;
            } else {
                i = i + 1;
            }
        }
        if found {
            proof {
                lemma_first_sub_idx(orig, event, i as int);
            }
            entries[i] = (event, String::from_str(description));
            SubscriptionsSettings {
                subscription_path: self.subscription_path,
                event_subscriptions: entries,
            }
        } else {
            proof {
                lemma_first_sub_idx_none(orig, event);
            }
            entries.push((event, String::from_str(description)));
            SubscriptionsSettings {
                subscription_path: self.subscription_path,
                event_subscriptions: entries,
            }
        }
    }
}

/// One host API endpoint the plugin asks leave to call.
#[derive(Debug, Clone)]
pub struct PermittedApiEndpoint {
    /// The HTTP method used on the endpoint.
    pub method: String,
    /// The endpoint path.
    pub endpoint: String,
    /// Why the plugin needs this endpoint; omitted from the document when
    /// not given.
    pub reason: Option<String>,
}

impl PermittedApiEndpoint {
    /// An endpoint permission without a stated reason.
    pub fn new(method: &str, endpoint: &str) -> (r: Self)
        ensures
            r.method@ == method@,
            r.endpoint@ == endpoint@,
            r.reason is None,
    {
        PermittedApiEndpoint {
            method: String::from_str(method),
            endpoint: String::from_str(endpoint),
            reason: None,
        }
    }

    /// The same permission with the reason set.
    pub fn with_reason(self, reason: &str) -> (r: Self)
        ensures
            r.method == self.method,
            r.endpoint == self.endpoint,
            r.reason matches Some(s) && s@ == reason@,
    {
        PermittedApiEndpoint {
            method: self.method,
            endpoint: self.endpoint,
            reason: Some(String::from_str(reason)),
        }
    }
}

/// The capability document a plugin answers an introspection probe with:
/// its identity plus the capture, UI, subscription and API-access
/// advertisements.
#[derive(Debug, Clone)]
pub struct IntroSpect {
    /// The plugin's identity.
    pub metadata: PluginMetadata,
    /// Static capture advertisement, if any.
    pub static_capture_settings: Option<StaticCaptureSettings>,
    /// Dynamic capture advertisement, if any.
    pub dynamic_capture_settings: Option<DynamicCaptureSettings>,
    /// The path the plugin's web UI is served under, if any.
    pub ui_path: Option<String>,
    /// Event subscription advertisement, if any.
    pub subscriptions: Option<SubscriptionsSettings>,
    /// The host API endpoints the plugin asks leave to call.
    pub permitted_api_endpoints: Vec<PermittedApiEndpoint>,
}

impl IntroSpect {
    /// A capability document holding only the metadata.
    pub fn new(metadata: PluginMetadata) -> (r: Self)
        ensures
            r.metadata == metadata,
            r.static_capture_settings is None,
            r.dynamic_capture_settings is None,
            r.ui_path is None,
            r.subscriptions is None,
            r.permitted_api_endpoints@.len() == 0,
    {
        IntroSpect {
            metadata,
            static_capture_settings: None,
            dynamic_capture_settings: None,
            ui_path: None,
            subscriptions: None,
            permitted_api_endpoints: Vec::new(),
        }
    }

    /// The same document with the metadata replaced.
    pub fn with_metadata(self, metadata: PluginMetadata) -> (r: Self)
        ensures
            r.metadata == metadata,
            r == (IntroSpect { metadata, ..self }),
    {
        IntroSpect { metadata, ..self }
    }

    /// The same document with one more permitted endpoint appended.
    pub fn add_permitted_api_endpoint(self, endpoint: PermittedApiEndpoint) -> (r: Self)
        ensures
            r.metadata == self.metadata,
            r.static_capture_settings == self.static_capture_settings,
            r.dynamic_capture_settings == self.dynamic_capture_settings,
            r.ui_path == self.ui_path,
            r.subscriptions == self.subscriptions,
            r.permitted_api_endpoints@ == self.permitted_api_endpoints@.push(endpoint),
    {
        let mut endpoints = self.permitted_api_endpoints;
        endpoints.push(endpoint);
        IntroSpect { permitted_api_endpoints: endpoints, ..self }
    }

    /// The same document with the static-capture advertisement set.
    pub fn with_static_capture_settings(self, settings: StaticCaptureSettings) -> (r: Self)
        ensures
            r.static_capture_settings matches Some(s) && s == settings,
            r == (IntroSpect { static_capture_settings: r.static_capture_settings, ..self }),
    {
        IntroSpect { static_capture_settings: Some(settings), ..self }
    }

    /// The same document with the dynamic-capture advertisement set.
    pub fn with_dynamic_capture_settings(self, settings: DynamicCaptureSettings) -> (r: Self)
        ensures
            r.dynamic_capture_settings matches Some(s) && s == settings,
            r == (IntroSpect { dynamic_capture_settings: r.dynamic_capture_settings, ..self }),
    {
        IntroSpect { dynamic_capture_settings: Some(settings), ..self }
    }

    /// The same document with the UI path set.
    pub fn with_ui_path(self, ui_path: &str) -> (r: Self)
        ensures
            r.ui_path matches Some(p) && p@ == ui_path@,
            r == (IntroSpect { ui_path: r.ui_path, ..self }),
    {
        IntroSpect { ui_path: Some(String::from_str(ui_path)), ..self }
    }

    /// The same document with the subscription advertisement set.
    pub fn with_subscriptions(self, subscriptions: SubscriptionsSettings) -> (r: Self)
        ensures
            r.subscriptions matches Some(s) && s == subscriptions,
            r == (IntroSpect { subscriptions: r.subscriptions, ..self }),
    {
        IntroSpect { subscriptions: Some(subscriptions), ..self }
    }

    /// Renders the capability document as canonical JSON: two-space pretty
    /// form, keys in declaration order, enums as integers, absent optionals
    /// omitted entirely.
    pub fn to_json(&self) -> (r: String)
        ensures
            r@ == spec_intro_json(*self),
    {
        let mut out: Vec<char> = Vec::new();
        append_meta(&mut out, &self.metadata);
        append_static(&mut out, &self.static_capture_settings);
        append_dynamic(&mut out, &self.dynamic_capture_settings);
        append_ui(&mut out, &self.ui_path);
        append_subs_section(&mut out, &self.subscriptions);
        append_endpoints(&mut out, &self.permitted_api_endpoints);
        append_chars(&mut out, "\n}");
        assert(out@ =~= spec_intro_json(*self));
        chars_to_string(&out)
    }
}

#[verifier::rlimit(50)]
fn append_static(out: &mut Vec<char>, o: &Option<StaticCaptureSettings>)
    ensures
        final(out)@ == old(out)@ + spec_static_json(*o),
{
    let ghost base0 = out@;
    match o {
        Some(s) => {
            append_chars(out, ",\n  \"static_capture_paths\": ");
            append_rules(out, &s.static_capture_paths);
            append_chars(out, ",\n  \"static_capture_ingress\": ");
            append_jstr(out, s.static_capture_ingress.as_str());
            assert(out@ =~= base0 + spec_static_json(*o));
        },
        None => {
            assert(out@ =~= base0 + spec_static_json(*o));
        },
    }
}

#[verifier::rlimit(50)]
fn append_dynamic(out: &mut Vec<char>, o: &Option<DynamicCaptureSettings>)
    ensures
        final(out)@ == old(out)@ + spec_dynamic_json(*o),
{
    let ghost base0 = out@;
    match o {
        Some(d) => {
            append_chars(out, ",\n  \"dynamic_capture_sniff\": ");
            append_jstr(out, d.dynamic_capture_sniff.as_str());
            append_chars(out, ",\n  \"dynamic_capture_ingress\": ");
            append_jstr(out, d.dynamic_capture_ingress.as_str());
            assert(out@ =~= base0 + spec_dynamic_json(*o));
        },
        None => {
            assert(out@ =~= base0 + spec_dynamic_json(*o));
        },
    }
}

fn append_ui(out: &mut Vec<char>, o: &Option<String>)
    ensures
        final(out)@ == old(out)@ + spec_ui_json(*o),
{
    let ghost base0 = out@;
    match o {
        Some(p) => {
            append_chars(out, ",\n  \"ui_path\": ");
            append_jstr(out, p.as_str());
            assert(out@ =~= base0 + spec_ui_json(*o));
        },
        None => {
            assert(out@ =~= base0 + spec_ui_json(*o));
        },
    }
}

#[verifier::rlimit(50)]
fn append_subs_section(out: &mut Vec<char>, o: &Option<SubscriptionsSettings>)
    ensures
        final(out)@ == old(out)@ + spec_subs_json(*o),
{
    let ghost base0 = out@;
    match o {
        Some(s) => {
            append_chars(out, ",\n  \"subscription_path\": ");
            append_jstr(out, s.subscription_path.as_str());
            append_chars(out, ",\n  \"subscriptions_events\": ");
            append_subs(out, &s.event_subscriptions);
            assert(out@ =~= base0 + spec_subs_json(*o));
        },
        None => {
            assert(out@ =~= base0 + spec_subs_json(*o));
        },
    }
}

/// The identity fields of the metadata portion.
pub open spec fn spec_meta_head(m: PluginMetadata) -> Seq<char> {
    "{\n  \"id\": "@ + jstr(m.id@) + ",\n  \"name\": "@ + jstr(m.name@) + ",\n  \"author\": "@
        + jstr(m.author@) + (if m.contact@.len() > 0 {
        ",\n  \"contact\": "@ + jstr(m.contact@)
    } else {
        Seq::<char>::empty()
    })
}

/// The description, kind and version fields of the metadata portion.
pub open spec fn spec_meta_tail(m: PluginMetadata) -> Seq<char> {
    ",\n  \"description\": "@ + jstr(m.description@) + ",\n  \"url\": "@ + jstr(m.url@)
        + ",\n  \"type\": "@ + spec_dec(m.plugin_type.spec_code() as nat)
        + ",\n  \"version_major\": "@ + spec_dec(m.version_major as nat)
        + ",\n  \"version_minor\": "@ + spec_dec(m.version_minor as nat)
        + ",\n  \"version_patch\": "@ + spec_dec(m.version_patch as nat)
}

/// The metadata portion of the capability document.
pub open spec fn spec_meta_json(m: PluginMetadata) -> Seq<char> {
    spec_meta_head(m) + spec_meta_tail(m)
}

/// One rendered static-capture rule.
pub open spec fn spec_rule_item(r: StaticCaptureRule) -> Seq<char> {
    "    {\n      \"capture_path\": "@ + jstr(r.capture_path@) + "\n    }"@
}

/// The rendered rules, separated by commas.
pub open spec fn spec_rule_items(rules: Seq<StaticCaptureRule>) -> Seq<char>
    decreases rules.len(),
{
    if rules.len() == 0 {
        Seq::empty()
    } else if rules.len() == 1 {
        spec_rule_item(rules[0])
    } else {
        spec_rule_items(rules.drop_last()) + ",\n"@ + spec_rule_item(rules.last())
    }
}

/// The rendered rule array, brackets included.
pub open spec fn spec_rules_json(rules: Seq<StaticCaptureRule>) -> Seq<char> {
    if rules.len() == 0 {
        "[]"@
    } else {
        "[\n"@ + spec_rule_items(rules) + "\n  ]"@
    }
}

/// The static-capture portion of the capability document.
pub open spec fn spec_static_json(o: Option<StaticCaptureSettings>) -> Seq<char> {
    match o {
        Some(s) => ",\n  \"static_capture_paths\": "@ + spec_rules_json(s.static_capture_paths@)
            + ",\n  \"static_capture_ingress\": "@ + jstr(s.static_capture_ingress@),
        None => Seq::empty(),
    }
}

/// The dynamic-capture portion of the capability document.
pub open spec fn spec_dynamic_json(o: Option<DynamicCaptureSettings>) -> Seq<char> {
    match o {
        Some(d) => ",\n  \"dynamic_capture_sniff\": "@ + jstr(d.dynamic_capture_sniff@)
            + ",\n  \"dynamic_capture_ingress\": "@ + jstr(d.dynamic_capture_ingress@),
        None => Seq::empty(),
    }
}

/// The UI-path portion of the capability document.
pub open spec fn spec_ui_json(o: Option<String>) -> Seq<char> {
    match o {
        Some(p) => ",\n  \"ui_path\": "@ + jstr(p@),
        None => Seq::empty(),
    }
}

/// One rendered event subscription.
pub open spec fn spec_sub_item(e: (EventName, String)) -> Seq<char> {
    "    "@ + jstr(spec_event_key(e.0)) + ": "@ + jstr(e.1@)
}

/// The rendered subscriptions, separated by commas.
pub open spec fn spec_sub_items(entries: Seq<(EventName, String)>) -> Seq<char>
    decreases entries.len(),
{
    if entries.len() == 0 {
        Seq::empty()
    } else if entries.len() == 1 {
        spec_sub_item(entries[0])
    } else {
        spec_sub_items(entries.drop_last()) + ",\n"@ + spec_sub_item(entries.last())
    }
}

/// The rendered subscription map, braces included.
pub open spec fn spec_subs_map_json(entries: Seq<(EventName, String)>) -> Seq<char> {
    if entries.len() == 0 {
        "{}"@
    } else {
        "{\n"@ + spec_sub_items(entries) + "\n  }"@
    }
}

/// The subscriptions portion of the capability document.
pub open spec fn spec_subs_json(o: Option<SubscriptionsSettings>) -> Seq<char> {
    match o {
        Some(s) => ",\n  \"subscription_path\": "@ + jstr(s.subscription_path@)
            + ",\n  \"subscriptions_events\": "@ + spec_subs_map_json(s.event_subscriptions@),
        None => Seq::empty(),
    }
}

/// One rendered endpoint permission.
pub open spec fn spec_endpoint_item(e: PermittedApiEndpoint) -> Seq<char> {
    "    {\n      \"method\": "@ + jstr(e.method@) + ",\n      \"endpoint\": "@ + jstr(e.endpoint@)
        + (match e.reason {
        Some(r) => ",\n      \"reason\": "@ + jstr(r@),
        None => Seq::<char>::empty(),
    }) + "\n    }"@
}

/// The rendered endpoint permissions, separated by commas.
pub open spec fn spec_endpoint_items(entries: Seq<PermittedApiEndpoint>) -> Seq<char>
    decreases entries.len(),
{
    if entries.len() == 0 {
        Seq::empty()
    } else if entries.len() == 1 {
        spec_endpoint_item(entries[0])
    } else {
        spec_endpoint_items(entries.drop_last()) + ",\n"@ + spec_endpoint_item(entries.last())
    }
}

/// The endpoint-permission portion of the capability document; empty when
/// no endpoint is requested.
pub open spec fn spec_endpoints_json(entries: Seq<PermittedApiEndpoint>) -> Seq<char> {
    if entries.len() == 0 {
        Seq::empty()
    } else {
        ",\n  \"permitted_api_endpoints\": [\n"@ + spec_endpoint_items(entries) + "\n  ]"@
    }
}

/// The whole capability document, in canonical form.
pub open spec fn spec_intro_json(i: IntroSpect) -> Seq<char> {
    spec_meta_json(i.metadata) + spec_static_json(i.static_capture_settings) + spec_dynamic_json(
        i.dynamic_capture_settings,
    ) + spec_ui_json(i.ui_path) + spec_subs_json(i.subscriptions) + spec_endpoints_json(
        i.permitted_api_endpoints@,
    ) + "\n}"@
}

#[verifier::rlimit(50)]
fn append_meta(out: &mut Vec<char>, m: &PluginMetadata)
    ensures
        final(out)@ == old(out)@ + spec_meta_json(*m),
{
    let ghost base0 = out@;
    append_chars(out, "{\n  \"id\": ");
    append_jstr(out, m.id.as_str());
    append_chars(out, ",\n  \"name\": ");
    append_jstr(out, m.name.as_str());
    append_chars(out, ",\n  \"author\": ");
    append_jstr(out, m.author.as_str());
    if !m.contact.as_str().is_empty() {
        append_chars(out, ",\n  \"contact\": ");
        append_jstr(out, m.contact.as_str());
    }
    assert(out@ =~= base0 + spec_meta_head(*m));
    let ghost h = base0 + spec_meta_head(*m);
    append_chars(out, ",\n  \"description\": ");
    append_jstr(out, m.description.as_str());
    append_chars(out, ",\n  \"url\": ");
    append_jstr(out, m.url.as_str());
    append_chars(out, ",\n  \"type\": ");
    append_dec(out, m.plugin_type.code() as u64);
    append_chars(out, ",\n  \"version_major\": ");
    append_dec(out, m.version_major as u64);
    append_chars(out, ",\n  \"version_minor\": ");
    append_dec(out, m.version_minor as u64);
    append_chars(out, ",\n  \"version_patch\": ");
    append_dec(out, m.version_patch as u64);
    assert(out@ =~= h + spec_meta_tail(*m));
    assert(out@ =~= base0 + spec_meta_json(*m));
}

#[verifier::loop_isolation(false)]
fn append_rules(out: &mut Vec<char>, rules: &Vec<StaticCaptureRule>)
    ensures
        final(out)@ == old(out)@ + spec_rules_json(rules@),
{
    let ghost base0 = out@;
    if rules.len() == 0 {
        append_chars(out, "[]");
        return ;
    }
    append_chars(out, "[\n");
    let ghost base = out@;
    let mut i: usize = 0;
    while i < rules.len()
        invariant
            i <= rules@.len(),
            out@ == base + spec_rule_items(rules@.take(i as int)),
        decreases rules@.len() - i,
    {
        if i > 0 {
            append_chars(out, ",\n");
        }
        append_chars(out, "    {\n      \"capture_path\": ");
        append_jstr(out, rules[i].capture_path.as_str());
        append_chars(out, "\n    }");
        proof {
            assert(rules@.take(i + 1).drop_last() =~= rules@.take(i as int));
            assert(rules@.take(i + 1).last() == rules@[i as int]);
            if i == 0 {
                assert(spec_rule_items(rules@.take(1)) == spec_rule_item(rules@[0]));
            }
        }
        assert(out@ =~= base + spec_rule_items(rules@.take(i + 1)));
        i = i + 1;
    }
    assert(rules@.take(rules@.len() as int) =~= rules@);
    append_chars(out, "\n  ]");
    assert(out@ =~= base0 + spec_rules_json(rules@));
}

#[verifier::loop_isolation(false)]
#[verifier::rlimit(50)]
fn append_subs(out: &mut Vec<char>, entries: &Vec<(EventName, String)>)
    ensures
        final(out)@ == old(out)@ + spec_subs_map_json(entries@),
{
    let ghost base0 = out@;
    if entries.len() == 0 {
        append_chars(out, "{}");
        return ;
    }
    append_chars(out, "{\n");
    let ghost base = out@;
    let mut i: usize = 0;
    while i < entries.len()
        invariant
            i <= entries@.len(),
            out@ == base + spec_sub_items(entries@.take(i as int)),
        decreases entries@.len() - i,
    {
        if i > 0 {
            append_chars(out, ",\n");
        }
        append_chars(out, "    ");
        let key = entries[i].0.wire_name();
        append_jstr(out, key.as_str());
        append_chars(out, ": ");
        append_jstr(out, entries[i].1.as_str());
        proof {
            assert(entries@.take(i + 1).drop_last() =~= entries@.take(i as int));
            assert(entries@.take(i + 1).last() == entries@[i as int]);
            if i == 0 {
                assert(spec_sub_items(entries@.take(1)) == spec_sub_item(entries@[0]));
            }
        }
        assert(out@ =~= base + spec_sub_items(entries@.take(i + 1)));
        i = i + 1;
    }
    assert(entries@.take(entries@.len() as int) =~= entries@);
    append_chars(out, "\n  }");
    assert(out@ =~= base0 + spec_subs_map_json(entries@));
}

#[verifier::loop_isolation(false)]
#[verifier::rlimit(50)]
fn append_endpoints(out: &mut Vec<char>, entries: &Vec<PermittedApiEndpoint>)
    ensures
        final(out)@ == old(out)@ + spec_endpoints_json(entries@),
{
    let ghost base0 = out@;
    if entries.len() == 0 {
        return ;
    }
    append_chars(out, ",\n  \"permitted_api_endpoints\": [\n");
    let ghost base = out@;
    let mut i: usize = 0;
    while i < entries.len()
        invariant
            i <= entries@.len(),
            out@ == base + spec_endpoint_items(entries@.take(i as int)),
        decreases entries@.len() - i,
    {
        if i > 0 {
            append_chars(out, ",\n");
        }
        append_chars(out, "    {\n      \"method\": ");
        append_jstr(out, entries[i].method.as_str());
        append_chars(out, ",\n      \"endpoint\": ");
        append_jstr(out, entries[i].endpoint.as_str());
        match &entries[i].reason {
            Some(r) => {
                append_chars(out, ",\n      \"reason\": ");
                append_jstr(out, r.as_str());
            },
            None => {},
        }
        append_chars(out, "\n    }");
        proof {
            assert(entries@.take(i + 1).drop_last() =~= entries@.take(i as int));
            assert(entries@.take(i + 1).last() == entries@[i as int]);
            if i == 0 {
                assert(spec_endpoint_items(entries@.take(1)) == spec_endpoint_item(entries@[0]));
            }
        }
        assert(out@ =~= base + spec_endpoint_items(entries@.take(i + 1)));
        i = i + 1;
    }
    assert(entries@.take(entries@.len() as int) =~= entries@);
    append_chars(out, "\n  ]");
    assert(out@ =~= base0 + spec_endpoints_json(entries@));
}

/// The canonical rendering is deterministic: the rendering function's
/// contract pins every output to `spec_intro_json` of the document, so any
/// two renderings of one document are byte-identical.
pub proof fn lemma_introspection_deterministic(d: IntroSpect, first: Seq<char>, second: Seq<char>)
    requires
        first == spec_intro_json(d),
        second == spec_intro_json(d),
    ensures
        first == second,
{
}

} // verus!
