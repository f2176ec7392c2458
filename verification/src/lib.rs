//! Process-supervision core for a desktop application shell that runs an
//! interpreter-driven backend script as a child process.
//!
//! The host shell (the GUI layer) supplies a resolved path to the backend
//! entry script, dispatches lifecycle events, and offers a process-wide
//! managed-state slot. This crate holds the decisions the supervisor makes
//! around those edges: which interpreter command runs the script, what
//! invocation is issued, what happens to the handle store on each launch
//! outcome, and what the window-lifecycle callback does.

pub mod interpreter;
pub mod launcher;
pub mod lifecycle;
pub mod store;
pub mod supervisor;
