//! Sentry protocol types: events and everything they carry, with the rules
//! by which the protocol reads and writes them.
pub mod addr;
pub mod context;
pub mod debug;
pub mod event;
pub mod external;
pub mod feedback;
pub mod frame;
pub mod json;
pub mod level;
pub mod map;
pub mod text;
pub mod thread;
