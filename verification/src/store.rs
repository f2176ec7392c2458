//! The process handle store: one process-wide slot holding either "no
//! process" or one handle to the spawned backend child.
//!
//! The slot is owned by the application's managed state and may be reached
//! from the setup path and from lifecycle callbacks, which can run on
//! different threads; the hosting layer therefore wraps a `BackendProcess`
//! in its mutual-exclusion guard. Verified code reaches the slot through an
//! exclusive borrow, so every access here is a full, serialized step: an
//! accessor sees the whole slot value, never a partial one.

use vstd::prelude::*;

verus! {

/// A handle to a spawned child process: at minimum its process identifier.
#[derive(Clone, Copy, PartialEq, Eq, Structural, Debug)]
pub struct ProcessHandle {
    /// The identifier the operating system assigned to the child.
    pub pid: u32,
}

/// The identifier an observer reads from a slot value.
pub open spec fn observed_pid(slot: Option<ProcessHandle>) -> Option<u32> {
    match slot {
        Some(handle) => Some(handle.pid),
        None => None,
    }
}

/// The supervised-backend slot: empty, or holding one `ProcessHandle`.
///
/// At most one handle is live per application instance; the handle, if
/// present, refers to a process that was successfully spawned (not
/// necessarily still running).
pub struct BackendProcess {
    slot: Option<ProcessHandle>,
}

impl BackendProcess {
    /// What the slot holds: the store's whole observable state.
    pub closed spec fn stored(self) -> Option<ProcessHandle> {
        self.slot
    }

    /// A store holding no process, as the application starts.
    pub fn empty() -> (r: Self)
        ensures
            r.stored() is None,
    {
        BackendProcess { slot: None }
    }

    /// Store `handle`, overwriting any previous value. Called once,
    /// immediately after a successful launch, during application setup,
    /// under the same exclusive access as every other use of the slot.
    pub fn install(&mut self, handle: ProcessHandle)
        ensures
            final(self).stored() == Some(handle),
    {
        self.slot = Some(handle);
    }

    /// The identifier of the stored process, if one is stored: a read
    /// through a shared borrow, which the borrow itself serializes against
    /// every writer.
    pub fn pid(&self) -> (r: Option<u32>)
        ensures
            r == observed_pid(self.stored()),
    {
        match &self.slot {
            Some(handle) => Some(handle.pid),
            None => None,
        }
    }

    /// Observe the slot through the exclusive-access accessor: the
    /// observer receives the entire current value and leaves it in place.
    pub fn inspect(&mut self) -> (r: Option<u32>)
        ensures
            final(self).stored() == old(self).stored(),
            r == observed_pid(old(self).stored()),
    {
        self.with_lock(read_slot)
    }

    /// Run `f` with exclusive access to the slot: `f` receives the entire
    /// current value, and the slot afterwards holds exactly the value `f`
    /// returned beside its result. No other accessor can interleave, since
    /// the store is reached by exclusive borrow for the whole call.
    pub fn with_lock<R, F: FnOnce(Option<ProcessHandle>) -> (Option<ProcessHandle>, R)>(
        &mut self,
        f: F,
    ) -> (r: R)
        requires
            call_requires(f, (old(self).stored(),)),
        ensures
            call_ensures(f, (old(self).stored(),), (final(self).stored(), r)),
    {
        let out = f(self.slot);
        self.slot = out.0;
        out.1
    }
}

/// The observation a reader makes under the lock: leave the slot exactly
/// in place and report the stored identifier.
fn read_slot(slot: Option<ProcessHandle>) -> (out: (Option<ProcessHandle>, Option<u32>))
    ensures
        out.0 == slot,
        out.1 == observed_pid(slot),
{
    match slot {
        Some(handle) => (Some(handle), Some(handle.pid)),
        None => (None, None),
    }
}

/// No observation under the lock is torn: a slot value is entirely "no
/// process" or entirely one handle, never an intermediate, and
/// [`BackendProcess::with_lock`] hands each accessor exactly the stored
/// value, in whatever order the accessors are serialized.
pub proof fn lemma_slot_never_torn(s: BackendProcess)
    ensures
        s.stored() is None || (exists|h: ProcessHandle| s.stored() == Some(h)),
{
    match s.stored() {
        Some(h) => {
            assert(s.stored() == Some(h));
        },
        None => {
        },
    }
}

} // verus!
