//! Threads and exceptions.
use vstd::prelude::*;

use crate::frame::Stacktrace;
use crate::text::{decimal_text, format_decimal};

verus! {

/// Represents a thread id.
#[derive(Debug, Clone, PartialEq, Eq, Ord, PartialOrd, Hash)]
pub enum ThreadId {
    /// Integer representation for the thread id
    Int(u64),
    /// String representation for the thread id
    String(String),
}

/// The text of a thread id: the decimal digits of an integer id, the
/// string itself otherwise.
pub open spec fn thread_id_text(id: ThreadId) -> Seq<char> {
    match id {
        ThreadId::Int(i) => decimal_text(i as nat),
        ThreadId::String(s) => s@,
    }
}

impl ThreadId {
    /// The text of the thread id: decimal digits for an integer id, the
    /// string itself otherwise.
    pub fn to_string(&self) -> (s: String)
        ensures
            s@ == thread_id_text(*self),
    {
        match self {
            ThreadId::Int(i) => format_decimal(*i),
            ThreadId::String(s) => s.clone(),
        }
    }
}

impl Default for ThreadId {
    fn default() -> (r: ThreadId)
        ensures
            r == ThreadId::Int(0),
    {
        ThreadId::Int(0)
    }
}

impl<'a> From<&'a str> for ThreadId {
    fn from(id: &'a str) -> (r: ThreadId)
        ensures
            r matches ThreadId::String(s) && s@ == id@,
    {
        ThreadId::String(id.to_owned())
    }
}

impl<'a> vstd::std_specs::convert::FromSpecImpl<&'a str> for ThreadId {
    open spec fn obeys_from_spec() -> bool {
        false
    }

    open spec fn from_spec(v: &'a str) -> ThreadId {
        vstd::pervasive::arbitrary()
    }
}

impl From<String> for ThreadId {
    fn from(id: String) -> (r: ThreadId)
        ensures
            r == ThreadId::String(id),
    {
        ThreadId::String(id)
    }
}

impl vstd::std_specs::convert::FromSpecImpl<String> for ThreadId {
    open spec fn obeys_from_spec() -> bool {
        true
    }

    open spec fn from_spec(v: String) -> ThreadId {
        ThreadId::String(v)
    }
}

impl From<i64> for ThreadId {
    fn from(id: i64) -> (r: ThreadId)
        ensures
            r == ThreadId::Int(id as u64),
    {
        ThreadId::Int(id as u64)
    }
}

impl vstd::std_specs::convert::FromSpecImpl<i64> for ThreadId {
    open spec fn obeys_from_spec() -> bool {
        true
    }

    open spec fn from_spec(v: i64) -> ThreadId {
        ThreadId::Int(v as u64)
    }
}

impl From<i32> for ThreadId {
    fn from(id: i32) -> (r: ThreadId)
        ensures
            r == ThreadId::Int(id as u64),
    {
        ThreadId::Int(id as u64)
    }
}

impl vstd::std_specs::convert::FromSpecImpl<i32> for ThreadId {
    open spec fn obeys_from_spec() -> bool {
        true
    }

    open spec fn from_spec(v: i32) -> ThreadId {
        ThreadId::Int(v as u64)
    }
}

impl From<u32> for ThreadId {
    fn from(id: u32) -> (r: ThreadId)
        ensures
            r == ThreadId::Int(id as u64),
    {
        ThreadId::Int(id as u64)
    }
}

impl vstd::std_specs::convert::FromSpecImpl<u32> for ThreadId {
    open spec fn obeys_from_spec() -> bool {
        true
    }

    open spec fn from_spec(v: u32) -> ThreadId {
        ThreadId::Int(v as u64)
    }
}

impl From<u16> for ThreadId {
    fn from(id: u16) -> (r: ThreadId)
        ensures
            r == ThreadId::Int(id as u64),
    {
        ThreadId::Int(id as u64)
    }
}

impl vstd::std_specs::convert::FromSpecImpl<u16> for ThreadId {
    open spec fn obeys_from_spec() -> bool {
        true
    }

    open spec fn from_spec(v: u16) -> ThreadId {
        ThreadId::Int(v as u64)
    }
}

/// Whether a flag is off (the protocol leaves such flags out when writing).
pub fn is_false(value: &bool) -> (r: bool)
    ensures
        r == !*value,
{
    *value == false
}

/// Represents a single thread.
#[derive(Debug, Clone, PartialEq)]
pub struct Thread {
    /// The optional ID of the thread (usually an integer)
    pub id: Option<ThreadId>,
    /// The optional name of the thread.
    pub name: Option<String>,
    /// If the thread suspended or crashed a stacktrace can be
    /// attached here.
    pub stacktrace: Option<Stacktrace>,
    /// Optional raw stacktrace.
    pub raw_stacktrace: Option<Stacktrace>,
    /// indicates a crashed thread
    pub crashed: bool,
    /// indicates that the thread was not suspended when the
    /// event was created.
    pub current: bool,
}

impl Default for Thread {
    fn default() -> (r: Thread)
        ensures
            r.id is None,
            r.name is None,
            r.stacktrace is None,
            r.raw_stacktrace is None,
            !r.crashed,
            !r.current,
    {
        Thread {
            id: None,
            name: None,
            stacktrace: None,
            raw_stacktrace: None,
            crashed: false,
            current: false,
        }
    }
}

/// Represents a single exception
#[derive(Debug, Clone, PartialEq)]
pub struct Exception {
    /// The type of the exception
    pub ty: String,
    /// The optional value of the exception
    pub value: Option<String>,
    /// An optional module for this exception.
    pub module: Option<String>,
    /// Optionally the stacktrace.
    pub stacktrace: Option<Stacktrace>,
    /// An optional raw stacktrace.
    pub raw_stacktrace: Option<Stacktrace>,
}

impl Default for Exception {
    fn default() -> (r: Exception)
        ensures
            r.ty@ == Seq::<char>::empty(),
            r.value is None,
            r.module is None,
            r.stacktrace is None,
            r.raw_stacktrace is None,
    {
        Exception {
            ty: String::new(),
            value: None,
            module: None,
            stacktrace: None,
            raw_stacktrace: None,
        }
    }
}

} // verus!
