//! Debug meta information: the system SDK and the debug images an event
//! refers to, and how a debug image's JSON object names its kind.
use vstd::prelude::*;

use crate::addr::Addr;
use crate::json::{
    distinct_keys, entries_insert, entries_lookup, entries_with, entries_with_all,
    entries_without, has_key, lemma_distinct_entries_with, lemma_distinct_entries_without,
    lemma_key_index, lemma_lookup_entries_with, lemma_lookup_entries_without, lemma_without_after_with,
    JsonObject, Value,
};
use crate::map::{
    lemma_insertion_order_kept, new_value_map, value_map_entries, value_map_from_entries, value_map_get,
    value_map_insert,
};
use crate::text::str_equal;

use linked_hash_map::LinkedHashMap;

verus! {

/// Holds information about the system SDK.
///
/// This is relevant for iOS and other platforms that have a system
/// SDK.  Not to be confused with the client SDK.
#[derive(Debug, Clone, PartialEq)]
pub struct SystemSdkInfo {
    /// The internal name of the SDK
    pub sdk_name: String,
    /// the major version of the SDK as integer or 0
    pub version_major: u32,
    /// the minor version of the SDK as integer or 0
    pub version_minor: u32,
    /// the patch version of the SDK as integer or 0
    pub version_patchlevel: u32,
}

/// Represents a debug image.
#[derive(Debug, Clone, PartialEq)]
pub enum DebugImage {
    /// Apple debug images (machos).  This is currently also used for
    /// non apple platforms with similar debug setups.
    Apple(AppleDebugImage),
    /// Symbolic (new style) debug infos.
    Symbolic(SymbolicDebugImage),
    /// A reference to a proguard debug file.
    Proguard(ProguardDebugImage),
    /// A debug image that is unknown to this protocol specification.
    Unknown(LinkedHashMap<String, Value>),
}

/// The name of a debug image's type: fixed for the known kinds; for an
/// unknown image, its `type` entry where that is a string, `unknown` otherwise.
pub open spec fn debug_image_type_name(img: DebugImage) -> Seq<char> {
    match img {
        DebugImage::Apple(..) => "apple"@,
        DebugImage::Symbolic(..) => "symbolic"@,
        DebugImage::Proguard(..) => "proguard"@,
        DebugImage::Unknown(m) => match entries_lookup(value_map_entries(m), "type"@) {
            Some(Value::String(s)) => s@,
            _ => "unknown"@,
        },
    }
}

impl DebugImage {
    /// Returns the name of the type on sentry.
    pub fn type_str(&self) -> (r: &str)
        ensures
            r@ == debug_image_type_name(*self),
    {
        proof {
            reveal_strlit("apple");
            reveal_strlit("symbolic");
            reveal_strlit("proguard");
            reveal_strlit("unknown");
            reveal_strlit("type");
        }
        match self {
            DebugImage::Apple(..) => "apple",
            DebugImage::Symbolic(..) => "symbolic",
            DebugImage::Proguard(..) => "proguard",
            DebugImage::Unknown(map) => match value_map_get(map, "type") {
                Some(Value::String(s)) => s.as_str(),
                _ => "unknown",
            },
        }
    }

    /// The JSON object of the image: the members of its data with its
    /// `type` member set to its type name.
    pub fn json_object(&self, members: Vec<(String, Value)>) -> (r: Vec<(String, Value)>)
        ensures
            exists|k: String, t: String|
                k@ == "type"@ && t@ == debug_image_type_name(*self) && r@ == entries_with(
                    members@,
                    k,
                    Value::String(t),
                ),
    {
        let mut obj = members;
        let k = "type".to_owned();
        let t = self.type_str().to_owned();
        let ghost gk = k;
        let ghost gt = t;
        entries_insert(&mut obj, k, Value::String(t));
        proof {
            reveal_strlit("type");
            assert(obj@ == entries_with(members@, gk, Value::String(gt)));
        }
        obj
    }
}

/// Represents an apple debug image in the debug meta.
#[derive(Debug, Clone, PartialEq)]
pub struct AppleDebugImage {
    /// The name of the debug image (usually filename)
    pub name: String,
    /// The optional CPU architecture of the debug image.
    pub arch: Option<String>,
    /// Alternatively a macho cpu type.
    pub cpu_type: Option<u32>,
    /// Alternatively a macho cpu subtype.
    pub cpu_subtype: Option<u32>,
    /// The starting address of the image.
    pub image_addr: Addr,
    /// The size of the image in bytes.
    pub image_size: u64,
    /// The address where the image is loaded at runtime.
    pub image_vmaddr: Addr,
    /// The unique UUID of the image.
    pub uuid: uuid::Uuid,
}

/// Represents a symbolic debug image.
#[derive(Debug, Clone, PartialEq)]
pub struct SymbolicDebugImage {
    /// The name of the debug image (usually filename)
    pub name: String,
    /// The optional CPU architecture of the debug image.
    pub arch: Option<String>,
    /// The starting address of the image.
    pub image_addr: Addr,
    /// The size of the image in bytes.
    pub image_size: u64,
    /// The address where the image is loaded at runtime.
    pub image_vmaddr: Addr,
    /// The unique debug id of the image.
    pub id: debugid::DebugId,
}

/// Represents a proguard mapping file reference.
#[derive(Debug, Clone, PartialEq)]
pub struct ProguardDebugImage {
    /// The UUID of the associated proguard file.
    pub uuid: uuid::Uuid,
}

impl From<AppleDebugImage> for DebugImage {
    fn from(data: AppleDebugImage) -> (r: DebugImage)
        ensures
            r == DebugImage::Apple(data),
    {
        DebugImage::Apple(data)
    }
}

impl vstd::std_specs::convert::FromSpecImpl<AppleDebugImage> for DebugImage {
    open spec fn obeys_from_spec() -> bool {
        true
    }

    open spec fn from_spec(v: AppleDebugImage) -> DebugImage {
        DebugImage::Apple(v)
    }
}

impl From<SymbolicDebugImage> for DebugImage {
    fn from(data: SymbolicDebugImage) -> (r: DebugImage)
        ensures
            r == DebugImage::Symbolic(data),
    {
        DebugImage::Symbolic(data)
    }
}

impl vstd::std_specs::convert::FromSpecImpl<SymbolicDebugImage> for DebugImage {
    open spec fn obeys_from_spec() -> bool {
        true
    }

    open spec fn from_spec(v: SymbolicDebugImage) -> DebugImage {
        DebugImage::Symbolic(v)
    }
}

impl From<ProguardDebugImage> for DebugImage {
    fn from(data: ProguardDebugImage) -> (r: DebugImage)
        ensures
            r == DebugImage::Proguard(data),
    {
        DebugImage::Proguard(data)
    }
}

impl vstd::std_specs::convert::FromSpecImpl<ProguardDebugImage> for DebugImage {
    open spec fn obeys_from_spec() -> bool {
        true
    }

    open spec fn from_spec(v: ProguardDebugImage) -> DebugImage {
        DebugImage::Proguard(v)
    }
}

/// Represents debug meta information.
#[derive(Debug, Clone, PartialEq)]
pub struct DebugMeta {
    /// Optional system SDK information.
    pub sdk_info: Option<SystemSdkInfo>,
    /// A list of debug information files.
    pub images: Vec<DebugImage>,
}

impl Default for DebugMeta {
    fn default() -> (r: DebugMeta)
        ensures
            r.sdk_info is None,
            r.images@.len() == 0,
    {
        DebugMeta { sdk_info: None, images: Vec::new() }
    }
}

impl DebugMeta {
    /// Returns true if the debug meta is empty.
    ///
    /// This is used by the serializer to entirely skip the section.
    pub fn is_empty(&self) -> (r: bool)
        ensures
            r == (self.sdk_info is None && self.images@.len() == 0),
    {
        self.sdk_info.is_none() && self.images.len() == 0
    }
}

// ---------------------------------------------------------------------------
// Reading a debug image's JSON object
// ---------------------------------------------------------------------------

/// A debug image's JSON object, sorted by the kind its `type` member names.
#[derive(Debug)]
pub enum RawDebugImage {
    /// An Apple image: the members other than `type`.
    Apple(JsonObject),
    /// A symbolic image: the members other than `type`.
    Symbolic(JsonObject),
    /// A proguard file reference: the members other than `type`.
    Proguard(JsonObject),
    /// An image of another kind, complete.
    Unknown(LinkedHashMap<String, Value>),
}

/// The type name a reader finds in a debug image's JSON object: its `type`
/// member where that is a string, `unknown` otherwise.
pub open spec fn json_debug_image_type_name(members: Seq<(String, Value)>) -> Seq<char> {
    match entries_lookup(members, "type"@) {
        Some(Value::String(t)) => t@,
        _ => "unknown"@,
    }
}

/// The type name of a sorted debug image.
pub open spec fn raw_debug_image_type_name(r: RawDebugImage) -> Seq<char> {
    match r {
        RawDebugImage::Apple(..) => "apple"@,
        RawDebugImage::Symbolic(..) => "symbolic"@,
        RawDebugImage::Proguard(..) => "proguard"@,
        RawDebugImage::Unknown(m) => debug_image_type_name(DebugImage::Unknown(m)),
    }
}

/// Writing a debug image's JSON object (its members with `type` set to its
/// type name) gives an object in which a reader finds the same type name.
pub proof fn lemma_debug_image_type_roundtrip(
    img: DebugImage,
    members: Seq<(String, Value)>,
    k: String,
    t: String,
)
    requires
        k@ == "type"@,
        t@ == debug_image_type_name(img),
    ensures
        json_debug_image_type_name(entries_with(members, k, Value::String(t))) == debug_image_type_name(img),
{
    lemma_lookup_entries_with(members, k, Value::String(t), k@);
}

/// Writing the JSON object of an image and taking its `type` member out
/// again gives back the members of its data, as long as they hold no member
/// named `type` (as the data of Apple, symbolic and proguard images does not).
pub proof fn lemma_debug_image_body_roundtrip(members: Seq<(String, Value)>, k: String, t: String)
    requires
        k@ == "type"@,
        !has_key(members, "type"@),
    ensures
        entries_without(entries_with(members, k, Value::String(t)), "type"@) == members,
{
    lemma_without_after_with(members, k, Value::String(t), Seq::<(String, Value)>::empty());
    assert(entries_with_all(entries_with(members, k, Value::String(t)), Seq::<(String, Value)>::empty())
        == entries_with(members, k, Value::String(t)));
    assert(entries_with_all(members, Seq::<(String, Value)>::empty()) == members);
}

/// Writing the JSON object of an unknown image (its entries with `type` set
/// to its type name) and reading it back as an unknown image (the members
/// other than `type` inserted in order, then `type`) keeps its type name and
/// the value of each of its other keys. The map's entries hold each key
/// once, as the map operations state of every map they are given or build.
pub proof fn lemma_unknown_debug_image_roundtrip(
    m: LinkedHashMap<String, Value>,
    k: String,
    t: String,
    k2: String,
    other: Seq<char>,
)
    requires
        distinct_keys(value_map_entries(m)),
        k@ == "type"@,
        k2@ == "type"@,
        t@ == debug_image_type_name(DebugImage::Unknown(m)),
        other != "type"@,
    ensures
        ({
            let written = entries_with(value_map_entries(m), k, Value::String(t));
            let read = entries_without(written, "type"@).push((k2, Value::String(t)));
            &&& json_debug_image_type_name(written) == t@
            &&& json_debug_image_type_name(read) == t@
            &&& entries_lookup(read, other) == entries_lookup(value_map_entries(m), other)
        }),
{
    let entries = value_map_entries(m);
    let v = Value::String(t);
    let written = entries_with(entries, k, v);
    lemma_distinct_entries_with(entries, k, v);
    lemma_lookup_entries_with(entries, k, v, other);
    let rest = entries_without(written, "type"@);
    lemma_distinct_entries_without(written, "type"@);
    lemma_lookup_entries_without(written, "type"@, other);
    lemma_key_index(rest, k2@);
    assert(rest.push((k2, v)) == entries_with(rest, k2, v));
    lemma_lookup_entries_with(rest, k2, v, other);
}

/// The JSON value is not an object, so it is no debug image.
#[derive(Debug, Clone, Copy, PartialEq, Eq, Structural)]
pub struct NotADebugImage;

/// Sorts a debug image's JSON object by its `type` member: `apple`,
/// `symbolic` and `proguard` give the members other than `type`; another
/// string gives an unknown image of all the members, `type` last; an object
/// with no string `type` gives an empty unknown image.
pub fn classify_debug_image(v: Value) -> (r: Result<RawDebugImage, NotADebugImage>)
    ensures
        !(v is Object) ==> r is Err,
        v matches Value::Object(members) ==> (r matches Ok(raw) && raw_debug_image_type_name(raw)
            == json_debug_image_type_name(members@)),
        v matches Value::Object(members) ==> {
            let rest = entries_without(members@, "type"@);
            &&& !has_key(rest, "type"@)
            &&& match entries_lookup(members@, "type"@) {
                Some(Value::String(t)) => if t@ == "apple"@ {
                    r matches Ok(RawDebugImage::Apple(b)) && b@ == rest
                } else if t@ == "symbolic"@ {
                    r matches Ok(RawDebugImage::Symbolic(b)) && b@ == rest
                } else if t@ == "proguard"@ {
                    r matches Ok(RawDebugImage::Proguard(b)) && b@ == rest
                } else {
                    r matches Ok(RawDebugImage::Unknown(m)) && distinct_keys(value_map_entries(m))
                        && exists|k: String|
                        k@ == "type"@ && value_map_entries(m) == rest.push((k, Value::String(t)))
                },
                _ => r matches Ok(RawDebugImage::Unknown(m)) && value_map_entries(m).len() == 0,
            }
        },
{
    match v {
        Value::Object(members) => {
            let mut rest = members;
            let ty = rest.remove("type");
            proof {
                reveal_strlit("type");
                reveal_strlit("apple");
                reveal_strlit("symbolic");
                reveal_strlit("proguard");
            }
            match ty {
                Some(Value::String(t)) => {
                    if str_equal(t.as_str(), "apple") {
                        Ok(RawDebugImage::Apple(rest))
                    } else if str_equal(t.as_str(), "symbolic") {
                        Ok(RawDebugImage::Symbolic(rest))
                    } else if str_equal(t.as_str(), "proguard") {
                        Ok(RawDebugImage::Proguard(rest))
                    } else {
                        let rest_members = rest.into_members();
                        let ghost rest_view = rest_members@;
                        let mut m = value_map_from_entries(rest_members);
                        let k = "type".to_owned();
                        let ghost gk = k;
                        let ghost gt = t;
                        value_map_insert(&mut m, k, Value::String(t));
                        proof {
                            lemma_insertion_order_kept(rest_view);
                            lemma_key_index(rest_view, gk@);
                            assert(value_map_entries(m) == rest_view.push((gk, Value::String(gt))));
                            lemma_lookup_entries_with(rest_view, gk, Value::String(gt), gk@);
                            lemma_distinct_entries_with(rest_view, gk, Value::String(gt));
                        }
                        Ok(RawDebugImage::Unknown(m))
                    }
                },
                _ => {
                    let m = new_value_map();
                    proof {
                        reveal_strlit("unknown");
                        assert(entries_lookup(value_map_entries(m), "type"@) is None);
                    }
                    Ok(RawDebugImage::Unknown(m))
                },
            }
        },
        _ => Err(NotADebugImage),
    }
}

} // verus!
