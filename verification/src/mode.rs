//! Resolving which phase of the protocol the current activation is in.

use vstd::prelude::*;

verus! {

/// The phase of one guest activation, derived fresh from the host's mode
/// flag on every activation and never cached.
#[derive(Clone, Copy, Debug, PartialEq, Eq, Structural)]
pub enum ExecutionMode {
    /// The deploy-time call: register a cron schedule with the scheduler.
    Registering,
    /// A scheduled trigger has fired: retrieve the stored payload and
    /// dispatch it to the handler.
    Triggered,
}

/// The mode that a given host flag selects: any nonzero flag asks the guest
/// to register; zero means a scheduled trigger has fired.
pub open spec fn mode_of(flag: i32) -> ExecutionMode {
    if flag != 0 {
        ExecutionMode::Registering
    } else {
        ExecutionMode::Triggered
    }
}

/// Reads the host's mode flag into an execution mode. Total: every flag
/// value selects exactly one mode, and there is no error path.
pub fn resolve_mode(flag: i32) -> (m: ExecutionMode)
    ensures
        m == mode_of(flag),
        m is Registering <==> flag != 0,
{
    if flag != 0 {
        ExecutionMode::Registering
    } else {
        ExecutionMode::Triggered
    }
}

/// Mode resolution is total and exclusive: for every flag value exactly one
/// of the two modes is selected — never both, never neither.
pub proof fn lemma_mode_total_exclusive(flag: i32)
    ensures
        (mode_of(flag) is Registering) != (mode_of(flag) is Triggered),
{
}

} // verus!
