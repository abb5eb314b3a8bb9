//! Contexts: typed data about the device, operating system, runtime and
//! application, plus free-form extra keys; and how a context's JSON object
//! is split into its type and body, and put back together.
use vstd::prelude::*;

use crate::external::Timestamp;
use crate::feedback::Feedback;
use crate::json::{
    entries_insert, entries_lookup, entries_with, entries_with_all,
    entries_without, has_key, lemma_entries_with_all_keeps_keys, lemma_key_index,
    lemma_lookup_entries_with, lemma_lookup_entries_with_all, lemma_without_after_with, JsonObject,
    Value,
};
use crate::map::{new_value_map, value_map_entries};
use crate::text::str_equal;

use linked_hash_map::LinkedHashMap;

verus! {

/// Optional device screen orientation
#[derive(Debug, Clone, Copy, PartialEq, Eq, Structural, Hash)]
pub enum Orientation {
    /// Portrait device orientation.
    Portrait,
    /// Landscape device orientation.
    Landscape,
}

/// General context data.
///
/// The data can be either typed (`ContextData`) or be filled in as
/// unhandled attributes in `extra`.  If completely arbitrary data
/// should be used the typed data can be set to `ContextData::Default`
/// in which case no key is well known.
///
/// Types like `OsContext` can be directly converted with `.into()`
/// to `Context` or `ContextData`.
#[derive(Debug, Clone, PartialEq)]
pub struct Context {
    /// Typed context data.
    pub data: ContextData,
    /// Additional keys sent along not known to the context type.
    pub extra: LinkedHashMap<String, Value>,
}

/// Typed contextual data
#[derive(Debug, Clone, PartialEq)]
pub enum ContextData {
    /// Arbitrary contextual information
    Default,
    /// Device data.
    Device(DeviceContext),
    /// Operating system data.
    Os(OsContext),
    /// Runtime data.
    Runtime(RuntimeContext),
    /// Application data
    App(AppContext),
    /// Feedback from a user.
    Feedback(Box<Feedback>),
}

/// Holds device information.
#[derive(Debug, Clone, PartialEq)]
pub struct DeviceContext {
    /// The name of the device.
    pub name: Option<String>,
    /// The family of the device model.
    pub family: Option<String>,
    /// The device model (human readable)
    pub model: Option<String>,
    /// The device model (internal identifier)
    pub model_id: Option<String>,
    /// The native cpu architecture of the device.
    pub arch: Option<String>,
    /// The current battery level (0-100), held as the IEEE 754 bit pattern
    /// of a 32-bit float.
    pub battery_level_bits: Option<u32>,
    /// The current screen orientation.
    pub orientation: Option<Orientation>,
    /// Simulator/prod indicator
    pub simulator: Option<bool>,
    /// Total memory available
    pub memory_size: Option<u64>,
    /// How much memory is still available.
    pub free_memory: Option<u64>,
    /// How much memory is usable for the app.
    pub usable_memory: Option<u64>,
    /// Total storage size of the device.
    pub storage_size: Option<u64>,
    /// How much storage is free.
    pub free_storage: Option<u64>,
    /// Total size of the attached external storage (eg: android SDK card).
    pub external_storage_size: Option<u64>,
    /// Free size of the attached external storage (eg: android SDK card).
    pub external_free_storage: Option<u64>,
    /// Optionally an indicator when the device was booted.
    pub boot_time: Option<Timestamp>,
    /// The timezone of the device.
    pub timezone: Option<String>,
}

impl Default for DeviceContext {
    fn default() -> (r: DeviceContext)
        ensures
            r.name is None && r.family is None && r.model is None && r.model_id is None,
            r.arch is None && r.battery_level_bits is None && r.orientation is None,
            r.simulator is None && r.memory_size is None && r.free_memory is None,
            r.usable_memory is None && r.storage_size is None && r.free_storage is None,
            r.external_storage_size is None && r.external_free_storage is None,
            r.boot_time is None && r.timezone is None,
    {
        DeviceContext {
            name: None,
            family: None,
            model: None,
            model_id: None,
            arch: None,
            battery_level_bits: None,
            orientation: None,
            simulator: None,
            memory_size: None,
            free_memory: None,
            usable_memory: None,
            storage_size: None,
            free_storage: None,
            external_storage_size: None,
            external_free_storage: None,
            boot_time: None,
            timezone: None,
        }
    }
}

/// Holds operating system information.
#[derive(Debug, Clone, PartialEq)]
pub struct OsContext {
    /// The name of the operating system.
    pub name: Option<String>,
    /// The version of the operating system.
    pub version: Option<String>,
    /// The internal build number of the operating system.
    pub build: Option<String>,
    /// The current kernel version
    pub kernel_version: Option<String>,
    /// An indicator if the os is rooted (mobile mostly)
    pub rooted: Option<bool>,
}

impl Default for OsContext {
    fn default() -> (r: OsContext)
        ensures
            r.name is None && r.version is None && r.build is None,
            r.kernel_version is None && r.rooted is None,
    {
        OsContext { name: None, version: None, build: None, kernel_version: None, rooted: None }
    }
}

/// Holds information about the runtime.
#[derive(Debug, Clone, PartialEq)]
pub struct RuntimeContext {
    /// The name of the runtime (for instance JVM)
    pub name: Option<String>,
    /// The version of the runtime
    pub version: Option<String>,
}

impl Default for RuntimeContext {
    fn default() -> (r: RuntimeContext)
        ensures
            r.name is None && r.version is None,
    {
        RuntimeContext { name: None, version: None }
    }
}

/// Holds app information.
#[derive(Debug, Clone, PartialEq)]
pub struct AppContext {
    /// Optional start time of the app.
    pub app_start_time: Option<Timestamp>,
    /// Optional device app hash (app specific device ID)
    pub device_app_hash: Option<String>,
    /// Optional build identicator
    pub build_type: Option<String>,
    /// Optional app identifier (dotted bundle id)
    pub app_identifier: Option<String>,
    /// Application name as it appears on the platform
    pub app_name: Option<String>,
    /// Application version as it appears on the platform
    pub app_version: Option<String>,
    /// Internal build ID as it appears on the platform
    pub app_build: Option<String>,
}

impl Default for AppContext {
    fn default() -> (r: AppContext)
        ensures
            r.app_start_time is None && r.device_app_hash is None && r.build_type is None,
            r.app_identifier is None && r.app_name is None && r.app_version is None,
            r.app_build is None,
    {
        AppContext {
            app_start_time: None,
            device_app_hash: None,
            build_type: None,
            app_identifier: None,
            app_name: None,
            app_version: None,
            app_build: None,
        }
    }
}

impl Default for Context {
    fn default() -> (r: Context)
        ensures
            r.data is Default,
            value_map_entries(r.extra).len() == 0,
    {
        Context { data: ContextData::Default, extra: new_value_map() }
    }
}

impl Default for ContextData {
    fn default() -> (r: ContextData)
        ensures
            r is Default,
    {
        ContextData::Default
    }
}

/// The name of a context's type, as the protocol writes it.
pub open spec fn context_type_name(d: ContextData) -> Seq<char> {
    match d {
        ContextData::Default => "default"@,
        ContextData::Device(..) => "device"@,
        ContextData::Os(..) => "os"@,
        ContextData::Runtime(..) => "runtime"@,
        ContextData::App(..) => "app"@,
        ContextData::Feedback(..) => "feedback"@,
    }
}

impl ContextData {
    /// Returns the name of the type for sentry.
    pub fn type_str(&self) -> (r: &str)
        ensures
            r@ == context_type_name(*self),
    {
        proof {
            reveal_strlit("default");
            reveal_strlit("device");
            reveal_strlit("os");
            reveal_strlit("runtime");
            reveal_strlit("app");
            reveal_strlit("feedback");
        }
        match self {
            ContextData::Default => "default",
            ContextData::Device(..) => "device",
            ContextData::Os(..) => "os",
            ContextData::Runtime(..) => "runtime",
            ContextData::App(..) => "app",
            ContextData::Feedback(..) => "feedback",
        }
    }
}

impl From<ContextData> for Context {
    fn from(data: ContextData) -> (r: Context)
        ensures
            r.data == data,
            value_map_entries(r.extra).len() == 0,
    {
        Context { data: data, extra: new_value_map() }
    }
}

impl vstd::std_specs::convert::FromSpecImpl<ContextData> for Context {
    open spec fn obeys_from_spec() -> bool {
        false
    }

    open spec fn from_spec(v: ContextData) -> Context {
        vstd::pervasive::arbitrary()
    }
}

impl From<LinkedHashMap<String, Value>> for Context {
    fn from(data: LinkedHashMap<String, Value>) -> (r: Context)
        ensures
            r == (Context { data: ContextData::Default, extra: data }),
    {
        Context { data: ContextData::Default, extra: data }
    }
}

impl vstd::std_specs::convert::FromSpecImpl<LinkedHashMap<String, Value>> for Context {
    open spec fn obeys_from_spec() -> bool {
        true
    }

    open spec fn from_spec(v: LinkedHashMap<String, Value>) -> Context {
        Context { data: ContextData::Default, extra: v }
    }
}

impl From<AppContext> for ContextData {
    fn from(data: AppContext) -> (r: ContextData)
        ensures
            r == ContextData::App(data),
    {
        ContextData::App(data)
    }
}

impl vstd::std_specs::convert::FromSpecImpl<AppContext> for ContextData {
    open spec fn obeys_from_spec() -> bool {
        true
    }

    open spec fn from_spec(v: AppContext) -> ContextData {
        ContextData::App(v)
    }
}

impl From<AppContext> for Context {
    fn from(data: AppContext) -> (r: Context)
        ensures
            r.data == ContextData::App(data),
            value_map_entries(r.extra).len() == 0,
    {
        Context::from(ContextData::App(data))
    }
}

impl vstd::std_specs::convert::FromSpecImpl<AppContext> for Context {
    open spec fn obeys_from_spec() -> bool {
        false
    }

    open spec fn from_spec(v: AppContext) -> Context {
        vstd::pervasive::arbitrary()
    }
}

impl From<DeviceContext> for ContextData {
    fn from(data: DeviceContext) -> (r: ContextData)
        ensures
            r == ContextData::Device(data),
    {
        ContextData::Device(data)
    }
}

impl vstd::std_specs::convert::FromSpecImpl<DeviceContext> for ContextData {
    open spec fn obeys_from_spec() -> bool {
        true
    }

    open spec fn from_spec(v: DeviceContext) -> ContextData {
        ContextData::Device(v)
    }
}

impl From<DeviceContext> for Context {
    fn from(data: DeviceContext) -> (r: Context)
        ensures
            r.data == ContextData::Device(data),
            value_map_entries(r.extra).len() == 0,
    {
        Context::from(ContextData::Device(data))
    }
}

impl vstd::std_specs::convert::FromSpecImpl<DeviceContext> for Context {
    open spec fn obeys_from_spec() -> bool {
        false
    }

    open spec fn from_spec(v: DeviceContext) -> Context {
        vstd::pervasive::arbitrary()
    }
}

impl From<OsContext> for ContextData {
    fn from(data: OsContext) -> (r: ContextData)
        ensures
            r == ContextData::Os(data),
    {
        ContextData::Os(data)
    }
}

impl vstd::std_specs::convert::FromSpecImpl<OsContext> for ContextData {
    open spec fn obeys_from_spec() -> bool {
        true
    }

    open spec fn from_spec(v: OsContext) -> ContextData {
        ContextData::Os(v)
    }
}

impl From<OsContext> for Context {
    fn from(data: OsContext) -> (r: Context)
        ensures
            r.data == ContextData::Os(data),
            value_map_entries(r.extra).len() == 0,
    {
        Context::from(ContextData::Os(data))
    }
}

impl vstd::std_specs::convert::FromSpecImpl<OsContext> for Context {
    open spec fn obeys_from_spec() -> bool {
        false
    }

    open spec fn from_spec(v: OsContext) -> Context {
        vstd::pervasive::arbitrary()
    }
}

impl From<RuntimeContext> for ContextData {
    fn from(data: RuntimeContext) -> (r: ContextData)
        ensures
            r == ContextData::Runtime(data),
    {
        ContextData::Runtime(data)
    }
}

impl vstd::std_specs::convert::FromSpecImpl<RuntimeContext> for ContextData {
    open spec fn obeys_from_spec() -> bool {
        true
    }

    open spec fn from_spec(v: RuntimeContext) -> ContextData {
        ContextData::Runtime(v)
    }
}

impl From<RuntimeContext> for Context {
    fn from(data: RuntimeContext) -> (r: Context)
        ensures
            r.data == ContextData::Runtime(data),
            value_map_entries(r.extra).len() == 0,
    {
        Context::from(ContextData::Runtime(data))
    }
}

impl vstd::std_specs::convert::FromSpecImpl<RuntimeContext> for Context {
    open spec fn obeys_from_spec() -> bool {
        false
    }

    open spec fn from_spec(v: RuntimeContext) -> Context {
        vstd::pervasive::arbitrary()
    }
}

// ---------------------------------------------------------------------------
// The JSON form of a context
// ---------------------------------------------------------------------------

/// Which typed data a context's JSON object holds.
#[derive(Debug, Clone, Copy, PartialEq, Eq, Structural)]
pub enum ContextKind {
    /// Arbitrary data, all of it kept as extra keys.
    Default,
    /// Device data.
    Device,
    /// Operating system data.
    Os,
    /// Runtime data.
    Runtime,
    /// Application data.
    App,
    /// Feedback from a user.
    Feedback,
}

/// A context's JSON object, split into the kind of data it holds and the
/// members that remain once its type is taken out.
#[derive(Debug)]
pub struct RawContext {
    /// The kind of typed data.
    pub kind: ContextKind,
    /// The object's members, without a string `type` member.
    pub body: JsonObject,
}

/// The kind of typed data a context holds.
pub open spec fn context_kind_of(d: ContextData) -> ContextKind {
    match d {
        ContextData::Default => ContextKind::Default,
        ContextData::Device(..) => ContextKind::Device,
        ContextData::Os(..) => ContextKind::Os,
        ContextData::Runtime(..) => ContextKind::Runtime,
        ContextData::App(..) => ContextKind::App,
        ContextData::Feedback(..) => ContextKind::Feedback,
    }
}

/// The kind of context a type name stands for; unknown names are `Default`.
pub open spec fn context_kind_for(ty: Seq<char>) -> ContextKind {
    if ty == "device"@ {
        ContextKind::Device
    } else if ty == "os"@ {
        ContextKind::Os
    } else if ty == "runtime"@ {
        ContextKind::Runtime
    } else if ty == "app"@ {
        ContextKind::App
    } else {
        ContextKind::Default
    }
}

/// The type of a context stored under `key`: its `type` member where that
/// is a string, the key otherwise.
pub open spec fn context_type_of(key: Seq<char>, members: Seq<(String, Value)>) -> Seq<char> {
    match entries_lookup(members, "type"@) {
        Some(Value::String(t)) => t@,
        _ => key,
    }
}

/// The members of a context's object once a string `type` member is taken out.
pub open spec fn context_body_of(members: Seq<(String, Value)>) -> Seq<(String, Value)> {
    match entries_lookup(members, "type"@) {
        Some(Value::String(_)) => entries_without(members, "type"@),
        _ => members,
    }
}

/// The kind of context a type name stands for.
pub fn context_kind_for_name(ty: &str) -> (k: ContextKind)
    ensures
        k == context_kind_for(ty@),
{
    if str_equal(ty, "device") {
        ContextKind::Device
    } else if str_equal(ty, "os") {
        ContextKind::Os
    } else if str_equal(ty, "runtime") {
        ContextKind::Runtime
    } else if str_equal(ty, "app") {
        ContextKind::App
    } else {
        ContextKind::Default
    }
}

/// Splits the JSON value stored under `key` in an event's contexts into the
/// kind of context and the remaining members. Values that are not objects
/// are not contexts and give `None`.
pub fn classify_context(key: &str, raw: Value) -> (r: Option<RawContext>)
    ensures
        raw matches Value::Object(members) ==> (r matches Some(c) && c.kind == context_kind_for(
            context_type_of(key@, members@),
        ) && c.body@ == context_body_of(members@)),
        raw matches Value::Object(members) ==> (entries_lookup(members@, "type"@) matches Some(
            Value::String(_),
        ) ==> r matches Some(c) && !has_key(c.body@, "type"@)),
        !(raw is Object) ==> r is None,
{
    match raw {
        Value::Object(members) => {
            let mut body = members;
            let has_type = match body.get("type") {
                Some(Value::String(_)) => true,
                _ => false,
            };
            if has_type {
                let ghost before = body@;
                let kind = match body.remove("type") {
                    Some(Value::String(t)) => context_kind_for_name(t.as_str()),
                    _ => {
                        proof {
                            assert(false);
                        }
                        ContextKind::Default
                    },
                };
                proof {
                    reveal_strlit("type");
                    assert(context_body_of(before) == body@);
                }
                Some(RawContext { kind, body })
            } else {
                proof {
                    reveal_strlit("type");
                }
                let kind = context_kind_for_name(key);
                Some(RawContext { kind, body })
            }
        },
        _ => None,
    }
}

/// The entries of an event's contexts object whose values are objects, in
/// order, each with its object.
pub open spec fn object_entries(entries: Seq<(String, Value)>) -> Seq<(String, JsonObject)>
    decreases entries.len(),
{
    if entries.len() == 0 {
        Seq::empty()
    } else {
        let rest = object_entries(entries.drop_last());
        match entries.last().1 {
            Value::Object(o) => rest.push((entries.last().0, o)),
            _ => rest,
        }
    }
}

/// How many of the entries have an object as value.
pub open spec fn object_count(entries: Seq<(String, Value)>) -> nat
    decreases entries.len(),
{
    if entries.len() == 0 {
        0
    } else {
        object_count(entries.drop_last()) + if entries.last().1 is Object {
            1nat
        } else {
            0nat
        }
    }
}

/// Every member of a contexts object whose value is an object yields
/// exactly one split context, whatever kind it is read as: the one after
/// those of the object members before it, under its key and with its
/// object. Members whose values are not objects yield none.
pub proof fn lemma_contexts_keep_every_object(entries: Seq<(String, Value)>)
    ensures
        object_entries(entries).len() == object_count(entries),
        forall|i: int|
            #![trigger entries[i]]
            0 <= i < entries.len() && (entries[i].1 is Object) ==> object_entries(entries)[object_count(
                entries.take(i),
            ) as int] == (entries[i].0, entries[i].1->Object_0),
    decreases entries.len(),
{
    if entries.len() > 0 {
        let init = entries.drop_last();
        lemma_contexts_keep_every_object(init);
        let n = entries.len() - 1;
        assert(entries.take(n) =~= init);
        assert forall|i: int|
            #![trigger entries[i]]
            0 <= i < entries.len() && (entries[i].1 is Object) implies object_entries(entries)[object_count(
                entries.take(i),
            ) as int] == (entries[i].0, entries[i].1->Object_0) by {
            if i < n {
                assert(entries.take(i) =~= init.take(i));
                assert(entries[i] == init[i]);
                lemma_object_count_prefix(init, i);
            }
        }
    }
}

/// The objects among the first `i` entries are no more than among all.
proof fn lemma_object_count_prefix(entries: Seq<(String, Value)>, i: int)
    requires
        0 <= i < entries.len(),
        entries[i].1 is Object,
    ensures
        object_count(entries.take(i)) < object_count(entries),
    decreases entries.len(),
{
    let init = entries.drop_last();
    if i < entries.len() - 1 {
        assert(entries.take(i) =~= init.take(i));
        assert(entries[i] == init[i]);
        lemma_object_count_prefix(init, i);
    } else {
        assert(entries.take(i) =~= init);
    }
}

/// Splits each entry of an event's contexts object, in order: entries whose
/// values are not objects are skipped, the others are split by
/// `classify_context` under their keys.
pub fn classify_contexts(raw: JsonObject) -> (r: Vec<(String, RawContext)>)
    ensures
        r@.len() == object_entries(raw@).len(),
        forall|i: int|
            0 <= i < r@.len() ==> {
                let (key, o) = #[trigger] object_entries(raw@)[i];
                &&& r@[i].0 == key
                &&& r@[i].1.kind == context_kind_for(context_type_of(key@, o@))
                &&& r@[i].1.body@ == context_body_of(o@)
            },
{
    let mut out: Vec<(String, RawContext)> = Vec::new();
    let mut rest = raw.into_members();
    let ghost all = rest@;
    let ghost mut done = Seq::<(String, Value)>::empty();
    while rest.len() > 0
        invariant
            all == done + rest@,
            out@.len() == object_entries(done).len(),
            forall|i: int|
                0 <= i < out@.len() ==> {
                    let (key, o) = #[trigger] object_entries(done)[i];
                    &&& out@[i].0 == key
                    &&& out@[i].1.kind == context_kind_for(context_type_of(key@, o@))
                    &&& out@[i].1.body@ == context_body_of(o@)
                },
        decreases rest@.len(),
    {
        let ghost before = rest@;
        let (key, value) = rest.remove(0);
        let ghost entry = (key, value);
        proof {
            assert(before =~= seq![(key, value)] + rest@);
            let next = done.push((key, value));
            assert(next.drop_last() =~= done);
            assert(all =~= next + rest@);
            done = next;
        }
        match classify_context(key.as_str(), value) {
            Some(c) => {
                out.push((key, c));
            },
            None => {},
        }
    }
    proof {
        assert(all =~= done);
    }
    out
}

/// The members a context's JSON object starts from: none for free-form
/// data, the members of the typed data's object otherwise.
pub open spec fn context_base(data: ContextData, data_members: Seq<(String, Value)>) -> Seq<(String, Value)> {
    if data is Default {
        Seq::empty()
    } else {
        data_members
    }
}

/// The JSON object of a context: the members of its typed data (none for
/// free-form data), then its `type` member, then each of its extra members
/// in turn, each member replacing one of the same key.
pub fn context_json_object(
    data: &ContextData,
    data_members: Vec<(String, Value)>,
    extra: Vec<(String, Value)>,
) -> (r: Vec<(String, Value)>)
    ensures
        exists|k: String, t: String|
            k@ == "type"@ && t@ == context_type_name(*data) && r@ == entries_with_all(
                entries_with(context_base(*data, data_members@), k, Value::String(t)),
                extra@,
            ),
{
    let mut obj = match data {
        ContextData::Default => Vec::new(),
        _ => data_members,
    };
    proof {
        assert(obj@ == context_base(*data, data_members@));
    }
    let k = "type".to_owned();
    let t = data.type_str().to_owned();
    let ghost gk = k;
    let ghost gt = t;
    entries_insert(&mut obj, k, Value::String(t));
    let ghost start = obj@;
    let mut rest = extra;
    let ghost mut done = Seq::<(String, Value)>::empty();
    while rest.len() > 0
        invariant
            extra@ == done + rest@,
            obj@ == entries_with_all(start, done),
        decreases rest@.len(),
    {
        let ghost before = rest@;
        let (key, value) = rest.remove(0);
        proof {
            assert(before =~= seq![(key, value)] + rest@);
            let next = done.push((key, value));
            assert(next.drop_last() =~= done);
            assert(extra@ =~= next + rest@);
            done = next;
        }
        entries_insert(&mut obj, key, value);
    }
    proof {
        reveal_strlit("type");
        assert(extra@ =~= done);
    }
    obj
}

/// Writing a context's JSON object and reading it back gives the kind of
/// data it was written from, whatever key it is stored under, as long as
/// none of its extra members is itself named `type`. (A feedback context is
/// read back as free-form data: the reader knows the device, operating
/// system, runtime and application kinds only.)
pub proof fn lemma_context_kind_roundtrip(
    key: Seq<char>,
    data: ContextData,
    data_members: Seq<(String, Value)>,
    extra: Seq<(String, Value)>,
    k: String,
    t: String,
)
    requires
        k@ == "type"@,
        t@ == context_type_name(data),
        !(data is Feedback),
        forall|i: int| 0 <= i < extra.len() ==> #[trigger] extra[i].0@ != "type"@,
    ensures
        context_kind_for(
            context_type_of(key, entries_with_all(entries_with(data_members, k, Value::String(t)), extra)),
        ) == context_kind_of(data),
{
    reveal_strlit("type");
    reveal_strlit("default");
    reveal_strlit("device");
    reveal_strlit("os");
    reveal_strlit("runtime");
    reveal_strlit("app");
    lemma_lookup_entries_with(data_members, k, Value::String(t), k@);
    lemma_lookup_entries_with_all(entries_with(data_members, k, Value::String(t)), extra, "type"@);
    assert("default"@.len() == 7);
    assert("device"@.len() == 6);
    assert("os"@.len() == 2);
    assert("runtime"@.len() == 7);
    assert("app"@.len() == 3);
    if data is Default {
        assert("default"@ != "runtime"@) by {
            assert("default"@[0] != "runtime"@[0]);
        }
    }
}

/// A context's written object keeps its typed data. For data other than
/// free-form data it starts with the keys of the data's members, in their
/// order, followed by `type` (where the data has no member of that name),
/// and each member keeps its value unless an extra member of its key sets
/// it. Free-form data writes no member of its own: `type` comes first.
pub proof fn lemma_context_object_keeps_data(
    data: ContextData,
    data_members: Seq<(String, Value)>,
    k: String,
    t: String,
    extra: Seq<(String, Value)>,
    key: Seq<char>,
)
    requires
        k@ == "type"@,
    ensures
        ({
            let written = entries_with_all(
                entries_with(context_base(data, data_members), k, Value::String(t)),
                extra,
            );
            let not_extra = key != "type"@ && forall|j: int| 0 <= j < extra.len() ==> #[trigger] extra[j].0@ != key;
            &&& !(data is Default) ==> written.len() >= data_members.len() && forall|i: int|
                0 <= i < data_members.len() ==> #[trigger] written[i].0@ == data_members[i].0@
            &&& !(data is Default) && !has_key(data_members, "type"@) ==> written[data_members.len() as int].0@
                == "type"@
            &&& !(data is Default) && not_extra ==> entries_lookup(written, key) == entries_lookup(
                data_members,
                key,
            )
            &&& data is Default ==> written.len() > 0 && written[0].0@ == "type"@
            &&& data is Default && not_extra ==> entries_lookup(written, key) is None
        }),
{
    let base = context_base(data, data_members);
    let start = entries_with(base, k, Value::String(t));
    lemma_key_index(base, k@);
    lemma_entries_with_all_keeps_keys(start, extra);
    assert forall|i: int| 0 <= i < base.len() implies #[trigger] start[i].0@ == base[i].0@ by {}
    if key != "type"@ && forall|j: int| 0 <= j < extra.len() ==> #[trigger] extra[j].0@ != key {
        lemma_lookup_entries_with_all(start, extra, key);
        lemma_lookup_entries_with(base, k, Value::String(t), key);
    }
    if data is Default {
        assert(base =~= Seq::<(String, Value)>::empty());
        lemma_key_index(Seq::<(String, Value)>::empty(), key);
    }
}

/// Writing a context's JSON object and reading it back gives, as the body,
/// the members of its typed data with its extra members set over them in
/// turn, as long as neither holds a member named `type`.
pub proof fn lemma_context_body_roundtrip(
    data_members: Seq<(String, Value)>,
    extra: Seq<(String, Value)>,
    k: String,
    t: String,
)
    requires
        k@ == "type"@,
        !has_key(data_members, "type"@),
        forall|i: int| 0 <= i < extra.len() ==> #[trigger] extra[i].0@ != "type"@,
    ensures
        context_body_of(entries_with_all(entries_with(data_members, k, Value::String(t)), extra))
            == entries_with_all(data_members, extra),
{
    lemma_lookup_entries_with(data_members, k, Value::String(t), k@);
    lemma_lookup_entries_with_all(entries_with(data_members, k, Value::String(t)), extra, "type"@);
    lemma_without_after_with(data_members, k, Value::String(t), extra);
}

} // verus!
