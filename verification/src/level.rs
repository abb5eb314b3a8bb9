//! Severity levels of events and breadcrumbs.
use vstd::prelude::*;

verus! {

/// Represents the level of severity of an event or breadcrumb
#[derive(Debug, Copy, Clone, PartialEq, Eq, Structural, PartialOrd, Ord, Hash)]
pub enum Level {
    /// Indicates very spammy debug information
    Debug,
    /// Informational messages
    Info,
    /// A warning.
    Warning,
    /// An error.
    Error,
    /// Similar to error but indicates a critical event that usually causes a shutdown.
    Critical,
}

impl Default for Level {
    fn default() -> (r: Level)
        ensures
            r == Level::Info,
    {
        Level::Info
    }
}

impl Level {
    /// A quick way to check if the level is `debug`.
    pub fn is_debug(&self) -> (r: bool)
        ensures
            r == (*self == Level::Debug),
    {
        *self == Level::Debug
    }

    /// A quick way to check if the level is `info`.
    pub fn is_info(&self) -> (r: bool)
        ensures
            r == (*self == Level::Info),
    {
        *self == Level::Info
    }

    /// A quick way to check if the level is `warning`.
    pub fn is_warning(&self) -> (r: bool)
        ensures
            r == (*self == Level::Warning),
    {
        *self == Level::Warning
    }

    /// A quick way to check if the level is `error`.
    pub fn is_error(&self) -> (r: bool)
        ensures
            r == (*self == Level::Error),
    {
        *self == Level::Error
    }

    /// A quick way to check if the level is `critical`.
    pub fn is_critical(&self) -> (r: bool)
        ensures
            r == (*self == Level::Critical),
    {
        *self == Level::Critical
    }

}

} // verus!
