//! The interpreter resolver: which of two candidate command names should
//! run the backend script on this host.
//!
//! The resolver probes the primary candidate once, with a harmless
//! version-query argument, and asks only whether the operating system could
//! start that invocation at all. The probe itself is process creation and
//! is performed by the hosting layer; the decision over its outcome is the
//! pure function [`resolve`].

use vstd::prelude::*;

verus! {

/// One of the two candidate interpreter commands, chosen once per run.
#[derive(Clone, Copy, PartialEq, Eq, Structural, Debug)]
pub enum InterpreterChoice {
    /// The preferred interpreter command, probed before use.
    Primary,
    /// The command used when the primary cannot be invoked; it is itself
    /// never probed, and its absence surfaces only at launch time.
    Fallback,
}

/// The command name a choice stands for on the host system.
pub open spec fn command_name(choice: InterpreterChoice) -> Seq<char> {
    match choice {
        InterpreterChoice::Primary => "python3"@,
        InterpreterChoice::Fallback => "python"@,
    }
}

/// Which interpreter the resolver chooses for a given probe outcome.
pub open spec fn resolved_choice(primary_invocable: bool) -> InterpreterChoice {
    if primary_invocable {
        InterpreterChoice::Primary
    } else {
        InterpreterChoice::Fallback
    }
}

impl InterpreterChoice {
    /// The command name this choice stands for on the host system.
    pub fn command(&self) -> (r: &'static str)
        ensures
            r@ == command_name(*self),
    {
        match self {
            InterpreterChoice::Primary => "python3",
            InterpreterChoice::Fallback => "python",
        }
    }
}

/// The command name whose invocability the resolver probes: always the
/// primary candidate.
pub fn probe_command() -> (r: &'static str)
    ensures
        r@ == "python3"@,
{
    "python3"
}

/// The harmless argument the probe invocation passes to the primary
/// candidate.
pub fn probe_argument() -> (r: &'static str)
    ensures
        r@ == "--version"@,
{
    "--version"
}

/// Decide which interpreter runs the backend, given whether the probe of
/// the primary candidate could be started by the operating system.
///
/// If the primary is invocable it is always chosen, regardless of the
/// fallback's presence; otherwise the fallback is chosen unconditionally,
/// with no further probing and no error even if it too is absent. The
/// resolver itself never fails.
pub fn resolve(primary_invocable: bool) -> (r: InterpreterChoice)
    ensures
        r == resolved_choice(primary_invocable),
        primary_invocable ==> r == InterpreterChoice::Primary,
        !primary_invocable ==> r == InterpreterChoice::Fallback,
{
    if primary_invocable {
        InterpreterChoice::Primary
    } else {
        InterpreterChoice::Fallback
    }
}

} // verus!
