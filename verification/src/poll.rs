//! The order of work in one polling cycle over the most recent runs.
//!
//! Runs are handled strictly one after the other. For each run the ledger
//! is asked first; a run that it knows is passed over; any other is
//! projected, and marked in the ledger only once its projection has
//! succeeded. A failure ends the work on that run, never the cycle.

use vstd::prelude::*;

verus! {

/// What the caller is to do next. The number is the index of the run among
/// those retrieved.
#[derive(Clone, Copy, Debug, PartialEq, Eq, Structural)]
pub enum Step {
    /// Look for the run's marker in the ledger.
    Check(usize),
    /// Retrieve the run's jobs and logs, and submit its span tree.
    Project(usize),
    /// Write the run's marker.
    Mark(usize),
    /// Nothing is left to do.
    Done,
}

/// How the step that was asked for ended.
#[derive(Clone, Copy, Debug, PartialEq, Eq, Structural)]
pub enum Outcome {
    /// The marker is there.
    Present,
    /// The marker is not there.
    Absent,
    /// The span tree was submitted.
    Projected,
    /// The marker was written.
    Marked,
    /// The step failed.
    Failed,
}

/// The first step on the run with index `index` of `total`, or the end of
/// the cycle where there is no such run.
pub open spec fn turn_to(index: int, total: int) -> Step {
    if 0 <= index < total {
        Step::Check(index as usize)
    } else {
        Step::Done
    }
}

/// The step that follows `step` once it ended with `outcome`, in a cycle
/// over `total` runs.
pub open spec fn following(step: Step, outcome: Outcome, total: usize) -> Step {
    match step {
        Step::Check(index) => if outcome == Outcome::Absent {
            Step::Project(index)
        } else {
            turn_to(index + 1, total as int)
        },
        Step::Project(index) => if outcome == Outcome::Projected {
            Step::Mark(index)
        } else {
            turn_to(index + 1, total as int)
        },
        Step::Mark(index) => turn_to(index + 1, total as int),
        Step::Done => Step::Done,
    }
}

fn turn(index: usize, total: usize) -> (out: Step)
    ensures
        out == turn_to(index + 1, total as int),
{
    if index < total && index + 1 < total {
        Step::Check(index + 1)
    } else {
        Step::Done
    }
}

/// The first step of a cycle over `total` runs.
pub fn begin(total: usize) -> (out: Step)
    ensures
        out == turn_to(0, total as int),
{
    if total > 0 {
        Step::Check(0)
    } else {
        Step::Done
    }
}

/// The step that follows `step` once it ended with `outcome`. A run whose
/// marker is absent is projected; a run that was projected is marked; in
/// every other case the cycle turns to the next run, or ends after the
/// last.
pub fn next_step(step: Step, outcome: Outcome, total: usize) -> (out: Step)
    ensures
        out == following(step, outcome, total),
{
    match step {
        Step::Check(index) => {
            if outcome == Outcome::Absent {
                Step::Project(index)
            } else {
                turn(index, total)
            }
        },
        Step::Project(index) => {
            if outcome == Outcome::Projected {
                Step::Mark(index)
            } else {
                turn(index, total)
            }
        },
        Step::Mark(index) => turn(index, total),
        Step::Done => Step::Done,
    }
}

/// A run is projected only directly after the ledger was asked about that
/// run and did not know it: a run whose marker exists is never submitted
/// again.
pub proof fn lemma_projects_only_unknown_runs(
    step: Step,
    outcome: Outcome,
    total: usize,
    index: usize,
)
    requires
        following(step, outcome, total) == Step::Project(index),
    ensures
        step == Step::Check(index),
        outcome == Outcome::Absent,
{
}

/// A run is marked only directly after that run was projected with success:
/// a failed projection leaves no marker.
pub proof fn lemma_marks_only_projected_runs(
    step: Step,
    outcome: Outcome,
    total: usize,
    index: usize,
)
    requires
        following(step, outcome, total) == Step::Mark(index),
    ensures
        step == Step::Project(index),
        outcome == Outcome::Projected,
{
}

/// The cycle never turns back: the ledger is asked about a run only when
/// the work on the run before it has ended, and after the last run the
/// cycle is over.
pub proof fn lemma_runs_in_sequence(step: Step, outcome: Outcome, total: usize, index: usize)
    requires
        following(step, outcome, total) == Step::Check(index),
    ensures
        index < total,
        index > 0,
        step == Step::Check((index - 1) as usize) || step == Step::Project((index - 1) as usize)
            || step == Step::Mark((index - 1) as usize),
{
}

} // verus!
