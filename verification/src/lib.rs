//! A blocking bridge over an asynchronous executor.
//!
//! A caller holds an opaque, copyable handle to a session, runs timed units
//! of work on it from any thread, and releases it when done. The session
//! owns its executor; the handle table counts ownership units and tears a
//! session down when the last unit is released.

pub mod lifecycle;
pub mod session;
pub mod table;
pub mod work;
