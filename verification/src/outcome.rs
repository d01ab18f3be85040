use vstd::prelude::*;

verus! {

/// The wrapper's final result: the child's own exit code, always in [0, 255].
#[derive(Clone, Copy, Debug, PartialEq, Eq, Structural)]
pub struct ExitOutcome {
    pub code: u8,
}

/// A fault of the wrapper itself, reported apart from any child exit code so
/// that an operator can tell "child failed" from "wrapper failed".
#[derive(Clone, Copy, Debug, PartialEq, Eq, Structural)]
pub enum SupervisorFault {
    /// The child terminated by a mechanism that yields no exit code; the
    /// wrapper must fail loudly rather than fabricate one.
    MissingExitCode,
}

/// The low byte of a raw child status code: the part of the status the
/// wrapper can represent as its own exit code.
pub open spec fn status_low_byte(c: int) -> int {
    c % 256
}

/// What the wrapper exits with, given the child's terminal status:
/// the child's code when one exists, a loud fault when none does.
pub open spec fn exit_outcome_spec(code: Option<i32>) -> Result<ExitOutcome, SupervisorFault> {
    match code {
        Some(c) => Ok(ExitOutcome { code: status_low_byte(c as int) as u8 }),
        None => Err(SupervisorFault::MissingExitCode),
    }
}

/// Derives the wrapper's exit outcome from the child's terminal status.
/// An absent exit code is a fatal wrapper-level fault, never a guessed code.
pub fn exit_outcome(code: Option<i32>) -> (r: Result<ExitOutcome, SupervisorFault>)
    ensures
        r == exit_outcome_spec(code),
        code is None ==> r == Err::<ExitOutcome, SupervisorFault>(SupervisorFault::MissingExitCode),
        code matches Some(c) ==> r == Ok::<ExitOutcome, SupervisorFault>(ExitOutcome {
            code: status_low_byte(c as int) as u8,
        }),
{
    match code {
        None => Err(SupervisorFault::MissingExitCode),
        Some(c) => {
            let m: i32 = c % 256;
            let low: i32 = if m < 0 { m + 256 } else { m };
            assert(low == status_low_byte(c as int));
            Ok(ExitOutcome { code: low as u8 })
        },
    }
}

} // verus!
