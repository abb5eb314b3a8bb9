//! Events and what they carry: breadcrumbs, user and request data,
//! repository references and SDK information.
use vstd::prelude::*;

use crate::context::Context;
use crate::debug::DebugMeta;
use crate::external::{IpAddress, Timestamp};
use crate::frame::{LogEntry, Stacktrace, TemplateInfo};
use crate::json::Value;
use crate::level::Level;
use crate::map::{
    context_map_entries, new_context_map, new_repo_map, new_string_map, new_value_map,
    repo_map_entries, string_map_entries, value_map_entries,
};
use crate::text::{
    all_radix_digits, ascii_bytes, digits_value, format_padded_hex, lemma_padded_hex_text,
    padded_hex_text, str_equal,
};
use vstd::arithmetic::power::pow;
use crate::thread::{Exception, Thread};

use linked_hash_map::LinkedHashMap;

verus! {

/// Represents a single breadcrumb
#[derive(Debug, Clone, PartialEq)]
pub struct Breadcrumb {
    /// The timestamp of the breadcrumb.  This is required.
    pub timestamp: Timestamp,
    /// The type of the breadcrumb.
    pub ty: String,
    /// The optional category of the breadcrumb.
    pub category: Option<String>,
    /// The non optional level of the breadcrumb.  It
    /// defaults to info.
    pub level: Level,
    /// An optional human readbale message for the breadcrumb.
    pub message: Option<String>,
    /// Arbitrary breadcrumb data that should be send along.
    pub data: LinkedHashMap<String, Value>,
}

impl Breadcrumb {
    /// The default breadcrumb, stamped with the given time: type `default`,
    /// level info, no category, no message and no data.
    pub fn default_at(timestamp: Timestamp) -> (r: Breadcrumb)
        ensures
            r.timestamp == timestamp,
            r.ty@ == "default"@,
            r.category is None,
            r.level == Level::Info,
            r.message is None,
            value_map_entries(r.data).len() == 0,
    {
        proof {
            reveal_strlit("default");
        }
        Breadcrumb {
            timestamp,
            ty: "default".to_owned(),
            category: None,
            level: Level::Info,
            message: None,
            data: new_value_map(),
        }
    }
}

/// Represents user info.
#[derive(Debug, Clone, PartialEq)]
pub struct User {
    /// The ID of the user.
    pub id: Option<String>,
    /// The email address of the user.
    pub email: Option<String>,
    /// The remote ip address of the user.
    pub ip_address: Option<IpAddress>,
    /// A human readable username of the user.
    pub username: Option<String>,
    /// Additional data that should be send along.
    pub data: LinkedHashMap<String, Value>,
}

impl Default for User {
    fn default() -> (r: User)
        ensures
            r.id is None,
            r.email is None,
            r.ip_address is None,
            r.username is None,
            value_map_entries(r.data).len() == 0,
    {
        User { id: None, email: None, ip_address: None, username: None, data: new_value_map() }
    }
}

/// Represents http request data.
#[derive(Debug, Clone, PartialEq)]
pub struct Request {
    /// The current URL of the request.
    pub url: Option<url::Url>,
    /// The HTTP request method.
    pub method: Option<String>,
    /// Optionally some associated request data (human readable)
    pub data: Option<String>,
    /// Optionally the encoded query string.
    pub query_string: Option<String>,
    /// An encoded cookie string if available.
    pub cookies: Option<String>,
    /// HTTP request headers.
    pub headers: LinkedHashMap<String, String>,
    /// Optionally a CGI/WSGI etc. environment dictionary.
    pub env: LinkedHashMap<String, String>,
    /// Additional unhandled keys.
    pub other: LinkedHashMap<String, Value>,
}

impl Default for Request {
    fn default() -> (r: Request)
        ensures
            r.url is None,
            r.method is None,
            r.data is None,
            r.query_string is None,
            r.cookies is None,
            string_map_entries(r.headers).len() == 0,
            string_map_entries(r.env).len() == 0,
            value_map_entries(r.other).len() == 0,
    {
        Request {
            url: None,
            method: None,
            data: None,
            query_string: None,
            cookies: None,
            headers: new_string_map(),
            env: new_string_map(),
            other: new_value_map(),
        }
    }
}

/// Represents a repository reference.
#[derive(Debug, Clone, PartialEq)]
pub struct RepoReference {
    /// The name of the repository as it is registered in Sentry.
    pub name: String,
    /// The optional prefix path to apply to source code when pairing it
    /// up with files in the repository.
    pub prefix: Option<String>,
    /// The optional current revision of the local repository.
    pub revision: Option<String>,
}

/// Represents a repository reference.
#[derive(Debug, Clone, PartialEq)]
pub struct ClientSdkInfo {
    /// The name of the SDK.
    pub name: String,
    /// The version of the SDK.
    pub version: String,
    /// An optional list of integrations that are enabled in this SDK.
    pub integrations: Vec<String>,
}

/// The id of an event: a UUID, its sixteen bytes read as a big-endian number.
#[derive(Debug, Clone, Copy, PartialEq, Eq, Structural, Hash)]
pub struct EventId(pub u128);

/// Represents a full event for Sentry.
#[derive(Debug, Clone, PartialEq)]
pub struct Event {
    /// The ID of the event
    pub id: Option<EventId>,
    /// The level of the event (defaults to error)
    pub level: Level,
    /// An optional fingerprint configuration to override the default.
    pub fingerprint: Vec<String>,
    /// The culprit or transaction name of the event.
    pub culprit: Option<String>,
    /// A message to be sent with the event.
    pub message: Option<String>,
    /// Optionally a log entry that can be used instead of the message for
    /// more complex cases.
    pub logentry: Option<LogEntry>,
    /// Optionally the name of the logger that created this event.
    pub logger: Option<String>,
    /// Optionally a name to version mapping of installed modules.
    pub modules: LinkedHashMap<String, String>,
    /// A platform identifier for this event.
    pub platform: String,
    /// The timestamp of when the event was created.
    ///
    /// This can be set to `None` in which case the server will set a timestamp.
    pub timestamp: Option<Timestamp>,
    /// Optionally the server (or device) name of this event.
    pub server_name: Option<String>,
    /// A release identifier.
    pub release: Option<String>,
    /// Repository references
    pub repos: LinkedHashMap<String, RepoReference>,
    /// An optional distribution identifer.
    pub dist: Option<String>,
    /// An optional environment identifier.
    pub environment: Option<String>,
    /// Optionally user data to be sent along.
    pub user: Option<User>,
    /// Optionally HTTP request data to be sent along.
    pub request: Option<Request>,
    /// Optional contexts.
    pub contexts: LinkedHashMap<String, Context>,
    /// List of breadcrumbs to send along.
    pub breadcrumbs: Vec<Breadcrumb>,
    /// Exceptions to be attached (one or multiple if chained).
    pub exceptions: Vec<Exception>,
    /// A single stacktrace (deprecated)
    pub stacktrace: Option<Stacktrace>,
    /// Simplified template error location info
    pub template_info: Option<TemplateInfo>,
    /// A list of threads.
    pub threads: Vec<Thread>,
    /// Optional tags to be attached to the event.
    pub tags: LinkedHashMap<String, String>,
    /// Optional extra information to be sent with the event.
    pub extra: LinkedHashMap<String, Value>,
    /// Debug meta information.
    pub debug_meta: DebugMeta,
    /// SDK metadata
    pub sdk_info: Option<ClientSdkInfo>,
    /// Additional arbitrary keys for forwards compatibility.
    pub other: LinkedHashMap<String, Value>,
}

/// Whether a platform is the generic `other` (the protocol leaves it out when writing).
pub fn is_other(value: &str) -> (r: bool)
    ensures
        r == (value@ == "other"@),
{
    str_equal(value, "other")
}

/// Whether a fingerprint is the default one: a single `{{ default }}` (or
/// `{{default}}`) entry (the protocol leaves it out when writing).
pub open spec fn default_fingerprint(fp: Seq<String>) -> bool {
    fp.len() == 1 && (fp[0]@ == "{{ default }}"@ || fp[0]@ == "{{default}}"@)
}

/// Whether a fingerprint is the default one: a single `{{ default }}` (or
/// `{{default}}`) entry (the protocol leaves it out when writing).
pub fn is_default_fingerprint(vec: &Vec<String>) -> (r: bool)
    ensures
        r == default_fingerprint(vec@),
{
    vec.len() == 1 && (str_equal(vec[0].as_str(), "{{ default }}") || str_equal(
        vec[0].as_str(),
        "{{default}}",
    ))
}

/// The text an event id is written as: the UUID's sixteen bytes in order,
/// each as two lower-case hexadecimal digits, without hyphens (UUID's
/// "simple" form).
pub open spec fn event_id_chars(id: EventId) -> Seq<char> {
    padded_hex_text(id.0 as nat, 32)
}

/// An event id is written as 32 lower-case hexadecimal digits, and
/// reading them back in base 16 gives the id: each digit is the matching
/// nibble of the id, most significant first.
pub proof fn lemma_event_id_text_reads_back(id: EventId)
    ensures
        event_id_chars(id).len() == 32,
        forall|i: int|
            0 <= i < 32 ==> {
                let c = #[trigger] event_id_chars(id)[i];
                ('0' <= c && c <= '9') || ('a' <= c && c <= 'f')
            },
        all_radix_digits(ascii_bytes(event_id_chars(id)), 16),
        digits_value(ascii_bytes(event_id_chars(id)), 16) == id.0,
{
    lemma_padded_hex_text(id.0 as nat, 32);
    assert(pow(16, 32) == 0x1_0000_0000_0000_0000_0000_0000_0000_0000int) by {
        reveal_with_fuel(pow, 33);
    }
    vstd::arithmetic::div_mod::lemma_small_mod(id.0 as nat, pow(16, 32) as nat);
}

/// The text an event id is written as, where there is one.
pub fn event_id_text(id: &Option<EventId>) -> (r: Option<String>)
    ensures
        r is Some <==> id is Some,
        r matches Some(s) ==> s@ == event_id_chars(id->Some_0),
{
    match id {
        Some(u) => Some(format_padded_hex(u.0, 32)),
        None => None,
    }
}

impl Event {
    /// The fields of an event other than its id, level, timestamp and
    /// contexts hold nothing: the default fingerprint, platform `other`, and
    /// every other field absent or empty.
    pub open spec fn has_blank_payload(&self) -> bool {
        &&& self.fingerprint@.len() == 1
        &&& self.fingerprint@[0]@ == "{{ default }}"@
        &&& self.culprit is None
        &&& self.message is None
        &&& self.logentry is None
        &&& self.logger is None
        &&& string_map_entries(self.modules).len() == 0
        &&& self.platform@ == "other"@
        &&& self.server_name is None
        &&& self.release is None
        &&& repo_map_entries(self.repos).len() == 0
        &&& self.dist is None
        &&& self.environment is None
        &&& self.user is None
        &&& self.request is None
        &&& self.breadcrumbs@.len() == 0
        &&& self.exceptions@.len() == 0
        &&& self.stacktrace is None
        &&& self.template_info is None
        &&& self.threads@.len() == 0
        &&& string_map_entries(self.tags).len() == 0
        &&& value_map_entries(self.extra).len() == 0
        &&& self.debug_meta.sdk_info is None
        &&& self.debug_meta.images@.len() == 0
        &&& self.sdk_info is None
        &&& value_map_entries(self.other).len() == 0
    }

    /// An event that nothing has been set on: no id, level error, no
    /// timestamp, no contexts, and a blank payload.
    pub open spec fn is_blank(&self) -> bool {
        &&& self.has_blank_payload()
        &&& self.id is None
        &&& self.level == Level::Error
        &&& self.timestamp is None
        &&& context_map_entries(self.contexts).len() == 0
    }

    /// Creates a new event with the given id and timestamp (the protocol's
    /// new events take a random id and the current time), blank otherwise.
    pub fn new(id: EventId, timestamp: Timestamp) -> (r: Event)
        ensures
            r.has_blank_payload(),
            r.level == Level::Error,
            context_map_entries(r.contexts).len() == 0,
            r.id == Some(id),
            r.timestamp == Some(timestamp),
    {
        let mut rv = Event::default();
        rv.timestamp = Some(timestamp);
        rv.id = Some(id);
        rv
    }
}

impl Default for Event {
    fn default() -> (r: Event)
        ensures
            r.is_blank(),
    {
        proof {
            reveal_strlit("{{ default }}");
            reveal_strlit("other");
        }
        Event {
            id: None,
            level: Level::Error,
            fingerprint: vec!["{{ default }}".to_owned()],
            culprit: None,
            message: None,
            logentry: None,
            logger: None,
            modules: new_string_map(),
            platform: "other".to_owned(),
            timestamp: None,
            server_name: None,
            release: None,
            repos: new_repo_map(),
            dist: None,
            environment: None,
            user: None,
            request: None,
            contexts: new_context_map(),
            breadcrumbs: Vec::new(),
            exceptions: Vec::new(),
            stacktrace: None,
            template_info: None,
            threads: Vec::new(),
            tags: new_string_map(),
            extra: new_value_map(),
            debug_meta: DebugMeta::default(),
            sdk_info: None,
            other: new_value_map(),
        }
    }
}

/// A blank event has exactly the values the protocol leaves out when
/// writing an event: level error, the default fingerprint, platform
/// `other`, and empty debug meta.
pub proof fn lemma_blank_event_skips_defaults(e: Event)
    requires
        e.is_blank(),
    ensures
        e.level == Level::Error,
        default_fingerprint(e.fingerprint@),
        e.platform@ == "other"@,
        e.debug_meta.sdk_info is None && e.debug_meta.images@.len() == 0,
{
}

} // verus!
