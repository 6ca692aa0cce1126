//! Decision logic for running a bundled cache-cleaning shell script.
//!
//! The crate performs no I/O. A run is a small state machine: the host asks
//! the [`runner::ScriptRunner`] which action is pending, performs it, and
//! reports what happened. Every rule of the operation (where the script is
//! written, which permissions it gets, how the interpreter is invoked, when
//! the temporary file is removed, how the captured output becomes the final
//! result) is decided here and stated in contracts.

pub mod laws;
pub mod report;
pub mod runner;
pub mod text;
