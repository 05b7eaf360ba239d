//! The orchestrator's decisions: what one invocation concludes, and which
//! process exit code each conclusion maps to.

use vstd::prelude::*;

verus! {

/// What one invocation concluded.
#[derive(Clone, Copy, Debug, PartialEq, Eq, Structural)]
pub enum Outcome {
    /// The port argument was missing or not a decimal number in 0..=65535.
    UsageError,
    /// The probe found the port not accepting connections.
    PortNotOpen,
    /// The port was open but no process identifier could be associated.
    NoProcessesFound,
    /// At least one matching process was found and termination attempted.
    TerminationAttempted,
}

/// The conventional exit code of a command-line usage error.
pub const USAGE_EXIT_CODE: i32 = 64;

/// Conclude the invocation once the probe has answered and the port has
/// been resolved: a closed port and an open port with no associated
/// process are both failures of the lookup, while any non-empty
/// resolution means termination is attempted.
pub fn outcome_after_probe(open: bool, matched: usize) -> (o: Outcome)
    ensures
        !open ==> o == Outcome::PortNotOpen,
        open && matched == 0 ==> o == Outcome::NoProcessesFound,
        open && matched > 0 ==> o == Outcome::TerminationAttempted,
{
    if !open {
        Outcome::PortNotOpen
    } else if matched == 0 {
        Outcome::NoProcessesFound
    } else {
        Outcome::TerminationAttempted
    }
}

/// The process exit code owed to each conclusion: the usage code for a bad
/// argument, 1 when the port was closed or no process was associated, and
/// 0 once termination was attempted — the success of the signals
/// themselves is not reflected in the exit code.
pub fn exit_code(o: Outcome) -> (c: i32)
    ensures
        o == Outcome::UsageError ==> c == USAGE_EXIT_CODE,
        o == Outcome::PortNotOpen ==> c == 1,
        o == Outcome::NoProcessesFound ==> c == 1,
        o == Outcome::TerminationAttempted ==> c == 0,
{
    match o {
        Outcome::UsageError => USAGE_EXIT_CODE,
        Outcome::PortNotOpen => 1,
        Outcome::NoProcessesFound => 1,
        Outcome::TerminationAttempted => 0,
    }
}

} // verus!
