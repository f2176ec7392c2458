//! The setup-path decisions of the supervisor: check the resolved
//! resource path, choose the interpreter, build the launch invocation,
//! and record the launch outcome in the process handle store.
//!
//! The hosting layer runs the loop around these decisions: it resolves
//! the resource directory, performs the interpreter probe, issues the
//! spawn, and hands each outcome back as a plain value. Setup aborts only
//! when the backend script path cannot be determined; a failed launch is
//! a degraded state the application continues through.

use vstd::prelude::*;
use crate::interpreter::command_name;
use crate::interpreter::resolve;
use crate::interpreter::resolved_choice;
use crate::launcher::LaunchError;
use crate::launcher::LaunchPlan;
use crate::launcher::plan_launch;
use crate::store::BackendProcess;
use crate::store::ProcessHandle;
use crate::store::observed_pid;

verus! {

/// Why application setup aborted. Only resource resolution can: the
/// application is unusable without its resource bundle, so that failure
/// is allowed to end startup.
#[derive(Clone, Copy, PartialEq, Eq, Structural, Debug)]
pub enum SetupError {
    /// The bundled backend script path could not be determined.
    ResourceResolution,
}

/// What the setup path records after the launch attempt: an
/// informational record of the child's identifier, or a diagnostic record
/// of the cause, after which startup continues without a backend.
#[derive(Clone, PartialEq, Eq, Debug)]
pub enum SetupReport {
    /// The backend started and its handle was installed.
    Started { pid: u32 },
    /// The backend could not be started; no handle was stored.
    NoBackend { cause: String },
}

/// The slot contents after a launch result is recorded: a success
/// overwrites the slot with the new handle; a failure leaves it exactly
/// as it was.
pub open spec fn recorded_slot(
    slot: Option<ProcessHandle>,
    result: Result<ProcessHandle, LaunchError>,
) -> Option<ProcessHandle> {
    match result {
        Ok(handle) => Some(handle),
        Err(_) => slot,
    }
}

/// The record the setup path emits for a launch result.
pub open spec fn launch_report(result: Result<ProcessHandle, LaunchError>) -> SetupReport {
    match result {
        Ok(handle) => (SetupReport::Started { pid: handle.pid }),
        Err(e) => (SetupReport::NoBackend { cause: e.cause }),
    }
}

/// The decisions of the setup routine up to the spawn: take the resolved
/// backend script path, choose the interpreter from the probe's outcome,
/// and build the invocation. A missing resource path aborts setup;
/// nothing else can.
pub fn prepare_launch(resource_path: Option<String>, primary_invocable: bool) -> (r: Result<
    LaunchPlan,
    SetupError,
>)
    ensures
        r is Ok <==> resource_path is Some,
        resource_path is None ==> r == Err::<LaunchPlan, SetupError>(
            SetupError::ResourceResolution,
        ),
        resource_path matches Some(path) ==> r matches Ok(plan) && plan.program@ == command_name(
            resolved_choice(primary_invocable),
        ) && plan.script_path == path,
{
    match resource_path {
        Some(path) => Ok(plan_launch(resolve(primary_invocable), path)),
        None => Err(SetupError::ResourceResolution),
    }
}

/// Record the launch outcome in the handle store and produce the record
/// to emit. A success installs the handle; a failure leaves the store as
/// it was. The function returns normally in both cases: a missing backend
/// never fails the setup path.
pub fn record_launch(store: &mut BackendProcess, result: Result<ProcessHandle, LaunchError>) -> (r:
    SetupReport)
    ensures
        final(store).stored() == recorded_slot(old(store).stored(), result),
        r == launch_report(result),
{
    match result {
        Ok(handle) => {
            let pid = handle.pid;
            store.install(handle);
            SetupReport::Started { pid }
        },
        Err(e) => SetupReport::NoBackend { cause: e.cause },
    }
}

/// After a successful launch the store holds exactly the spawned child's
/// handle: whatever the slot held before, recording a success leaves one
/// handle, and an observation under the lock reads that child's
/// identifier.
pub proof fn lemma_success_installs_handle(slot: Option<ProcessHandle>, handle: ProcessHandle)
    ensures
        recorded_slot(slot, Ok(handle)) == Some(handle),
        observed_pid(recorded_slot(slot, Ok(handle))) == Some(handle.pid),
{
}

/// After a failed launch the store is exactly what it was: in particular,
/// the empty store of application boot still holds no process, and an
/// observation under the lock reads none.
pub proof fn lemma_failure_leaves_slot(slot: Option<ProcessHandle>, e: LaunchError)
    ensures
        recorded_slot(slot, Err(e)) == slot,
        slot is None ==> observed_pid(recorded_slot(slot, Err(e))) is None,
{
}

} // verus!
