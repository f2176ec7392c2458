//! The backend launcher: build the invocation that starts the backend
//! script, and turn the operating system's answer into a handle or an
//! error.
//!
//! The spawn itself is process creation and is issued by the hosting
//! layer, which hands the outcome back as a plain value: the child's
//! identifier when the operating system created the process, or the cause
//! when it refused. The launcher never waits for the child to exit; the
//! hosting layer returns as soon as process creation was attempted.

use vstd::prelude::*;
use crate::interpreter::InterpreterChoice;
use crate::interpreter::command_name;
use crate::store::ProcessHandle;

verus! {

/// The single invocation the launcher issues: `program` run with
/// `script_path` as its sole argument. No further arguments, environment
/// variables or communication channels are part of the invocation.
pub struct LaunchPlan {
    /// The interpreter command name to execute.
    pub program: String,
    /// The resolved path to the backend entry script, the one argument.
    pub script_path: String,
}

/// The operating system refused or failed to create the backend process
/// (missing executable, permission error, and the like).
pub struct LaunchError {
    /// The underlying cause, as the operating system reported it.
    pub cause: String,
}

impl LaunchError {
    /// The reported cause, for diagnostic records.
    pub fn cause(&self) -> (r: &String)
        ensures
            r == self.cause,
    {
        &self.cause
    }
}

/// The fixed file name of the backend entry script inside the bundled
/// resources; the hosting layer resolves it against its resource
/// directory.
pub fn backend_script_name() -> (r: &'static str)
    ensures
        r@ == "movie_api.py"@,
{
    "movie_api.py"
}

/// Build the invocation for the launch: the resolved interpreter command,
/// with the resolved script path as its sole argument.
pub fn plan_launch(command: InterpreterChoice, script_path: String) -> (p: LaunchPlan)
    ensures
        p.program@ == command_name(command),
        p.script_path == script_path,
{
    LaunchPlan { program: String::from_str(command.command()), script_path }
}

/// Interpret the operating system's answer to the spawn: a created
/// process becomes a handle carrying its identifier, a refusal becomes a
/// `LaunchError` carrying the cause.
pub fn launch_result(outcome: Result<u32, String>) -> (r: Result<ProcessHandle, LaunchError>)
    ensures
        outcome matches Ok(pid) ==> r == Ok::<ProcessHandle, LaunchError>((ProcessHandle { pid })),
        outcome matches Err(cause) ==> r == Err::<ProcessHandle, LaunchError>((LaunchError {
            cause,
        })),
{
    match outcome {
        Ok(pid) => Ok(ProcessHandle { pid }),
        Err(cause) => Err(LaunchError { cause }),
    }
}

} // verus!
