//! A task list: short task records kept in order, looked up by name, rendered as
//! text, written to and read from a JSON snapshot, and driven by a line-oriented
//! console session.

pub mod console;
pub mod error;
pub mod priority;
pub mod snapshot;
pub mod stamp;
pub mod store;
pub mod task;
pub mod text;
