//! The lifecycle model: the closed set of events the host shell
//! dispatches to the supervisor, and the window state machine the
//! window-destroy callback records into.
//!
//! The registered window-destroy callback only records that destruction
//! occurred; it takes no action on the process handle store. Whether the
//! backend child ends with the application is the environment's doing,
//! not this callback's: backend termination policy is left as a separate,
//! explicit requirement.

use vstd::prelude::*;

verus! {

/// The closed set of lifecycle events the host shell dispatches.
#[derive(Clone, Copy, PartialEq, Eq, Structural, Debug)]
pub enum LifecycleEvent {
    /// Application setup: runs once at boot and may abort startup.
    Setup,
    /// A window was destroyed: observed per occurrence; cannot fail the
    /// application.
    WindowDestroyed,
}

/// The window's place in the modeled lifecycle.
#[derive(Clone, Copy, PartialEq, Eq, Structural, Debug)]
pub enum WindowState {
    /// No destruction has been observed yet.
    Alive,
    /// A destroy event was observed; there is no way back.
    Destroyed,
}

/// The window-lifecycle transition: a destroy event moves the window to
/// `Destroyed`, one way; no other modeled event changes the window, and
/// a destroyed window stays destroyed whatever arrives.
pub fn window_step(state: WindowState, event: LifecycleEvent) -> (r: WindowState)
    ensures
        event == LifecycleEvent::WindowDestroyed ==> r == WindowState::Destroyed,
        event != LifecycleEvent::WindowDestroyed ==> r == state,
        state == WindowState::Destroyed ==> r == WindowState::Destroyed,
{
    match event {
        LifecycleEvent::WindowDestroyed => WindowState::Destroyed,
        LifecycleEvent::Setup => state,
    }
}

} // verus!
