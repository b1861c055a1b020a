//! The decisions of a loop that writes a whole buffer through a writer
//! that may accept only part of it at a time.
use vstd::prelude::*;

verus! {

/// What one write attempt reported.
#[derive(Debug, Clone, Copy, PartialEq, Eq)]
pub enum WriteOutcome {
    /// It accepted this many bytes.
    Wrote(usize),
    /// It was interrupted before writing anything.
    Interrupted,
    /// It failed with any other error.
    Failed,
}

/// What the loop does next.
#[derive(Debug, Clone, Copy, PartialEq, Eq)]
pub enum WriteStep {
    /// Go on with this many bytes still to write.
    Advance(usize),
    /// Try the same bytes again.
    Retry,
    /// Stop: the writer accepted nothing.
    WriteZero,
    /// Stop with the writer's error.
    Fail,
}

/// Decides the next step of writing `remaining` bytes (at least one) after
/// a write attempt. A writer reports at most the bytes it was given.
pub fn write_all_step(remaining: usize, outcome: WriteOutcome) -> (r: WriteStep)
    requires
        remaining > 0,
        outcome matches WriteOutcome::Wrote(n) ==> n <= remaining,
    ensures
        match outcome {
            WriteOutcome::Wrote(n) => if n == 0 {
                r == WriteStep::WriteZero
            } else {
                r == WriteStep::Advance((remaining - n) as usize)
            },
            WriteOutcome::Interrupted => r == WriteStep::Retry,
            WriteOutcome::Failed => r == WriteStep::Fail,
        },
{
    match outcome {
        WriteOutcome::Wrote(0) => WriteStep::WriteZero,
        WriteOutcome::Wrote(n) => WriteStep::Advance(remaining - n),
        WriteOutcome::Interrupted => WriteStep::Retry,
        WriteOutcome::Failed => WriteStep::Fail,
    }
}

} // verus!
