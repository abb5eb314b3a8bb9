//! Values the protocol carries from other crates (UUIDs, URLs, debug
//! identifiers), the point in time an event or breadcrumb records, and
//! network addresses.
use vstd::prelude::*;

verus! {

#[verifier::external_type_specification]
#[verifier::external_body]
pub struct ExUuid(uuid::Uuid);

#[verifier::external_type_specification]
#[verifier::external_body]
pub struct ExUrl(url::Url);

#[verifier::external_type_specification]
#[verifier::external_body]
pub struct ExDebugId(debugid::DebugId);

/// `Uuid::clone`: `Uuid` derives `Clone` and `Copy`, so a clone is the
/// same value.
pub assume_specification[ <uuid::Uuid as Clone>::clone ](u: &uuid::Uuid) -> (r: uuid::Uuid)
    ensures
        r == *u,
;

/// `DebugId::clone`: `DebugId` derives `Clone` and `Copy`, so a clone is
/// the same value.
pub assume_specification[ <debugid::DebugId as Clone>::clone ](d: &debugid::DebugId) -> (r: debugid::DebugId)
    ensures
        r == *d,
;

/// `Url::clone`, derived: nothing is stated of the copy.
pub assume_specification[ <url::Url as Clone>::clone ](u: &url::Url) -> url::Url;

/// A point in time in UTC: whole seconds since the Unix epoch and the
/// nanoseconds past that second.
#[derive(Debug, Clone, Copy, PartialEq, Eq, Structural, PartialOrd, Ord, Hash)]
pub struct Timestamp {
    /// Seconds since 1970-01-01T00:00:00Z.
    pub secs: i64,
    /// Nanoseconds past `secs`.
    pub nanos: u32,
}

/// An IP address.
#[derive(Debug, Clone, Copy, PartialEq, Eq, Structural, PartialOrd, Ord, Hash)]
pub enum IpAddress {
    /// An IPv4 address, its four octets read as a big-endian number.
    V4(u32),
    /// An IPv6 address, its sixteen octets read as a big-endian number.
    V6(u128),
}

} // verus!
