//! The two-phase shutdown of the child's process group: ask the group to
//! terminate, give it a moment, and kill it if it is still there.

use vstd::prelude::*;
use crate::error::TerminationError;

verus! {

/// How long the group is given to terminate before it is probed, in
/// milliseconds.
pub const GRACE_PERIOD_MS: u64 = 300;

/// What the caller is to do next in the shutdown of a process group.
#[derive(Debug)]
pub enum TerminationStep {
    /// Deliver the graceful-termination signal to the group.
    SendTerminate(i32),
    /// Wait for the grace period.
    AwaitExit(i32),
    /// Probe whether the group still exists.
    Probe(i32),
    /// Deliver the forceful-termination signal to the group.
    SendKill(i32),
    /// The shutdown is over, with this result.
    Finished(Result<(), TerminationError>),
}

/// What became of the step that the caller was asked to take.
#[derive(Debug)]
pub enum StepOutcome {
    /// The signal was delivered, the wait is over, or the probe found the
    /// group.
    Done,
    /// The operating system refused, for the reason carried. For a probe
    /// this means that the group is gone.
    Refused(String),
}

/// The first step of the shutdown: with no process group on record there is
/// nothing to signal, and the shutdown fails at once.
pub open spec fn first_termination_step(process_group_id: Option<i32>) -> TerminationStep {
    match process_group_id {
        Some(pgid) => TerminationStep::SendTerminate(pgid),
        None => TerminationStep::Finished(Err(TerminationError::NoProcessGroup)),
    }
}

/// The step that follows a step and its outcome. A refused signal ends the
/// shutdown with an error. A refused probe ends it with success: the group
/// is gone, which is what was wanted. A finished shutdown stays finished.
pub open spec fn next_termination_step(step: TerminationStep, outcome: StepOutcome)
    -> TerminationStep {
    match step {
        TerminationStep::SendTerminate(pgid) => match outcome {
            StepOutcome::Done => TerminationStep::AwaitExit(pgid),
            StepOutcome::Refused(reason) => TerminationStep::Finished(
                Err(TerminationError::TermRejected(reason)),
            ),
        },
        TerminationStep::AwaitExit(pgid) => TerminationStep::Probe(pgid),
        TerminationStep::Probe(pgid) => match outcome {
            StepOutcome::Done => TerminationStep::SendKill(pgid),
            StepOutcome::Refused(_) => TerminationStep::Finished(Ok(())),
        },
        TerminationStep::SendKill(pgid) => match outcome {
            StepOutcome::Done => TerminationStep::Finished(Ok(())),
            StepOutcome::Refused(reason) => TerminationStep::Finished(
                Err(TerminationError::KillRejected(reason)),
            ),
        },
        TerminationStep::Finished(result) => TerminationStep::Finished(result),
    }
}

/// Starts the shutdown of the process group that the session has on
/// record.
pub fn terminate_flutter_process_group(process_group_id: Option<i32>) -> (step: TerminationStep)
    ensures
        step == first_termination_step(process_group_id),
{
    match process_group_id {
        Some(pgid) => TerminationStep::SendTerminate(pgid),
        None => TerminationStep::Finished(Err(TerminationError::NoProcessGroup)),
    }
}

/// Continues the shutdown after the caller has taken a step.
pub fn continue_termination(step: TerminationStep, outcome: StepOutcome) -> (next: TerminationStep)
    ensures
        next == next_termination_step(step, outcome),
{
    match step {
        TerminationStep::SendTerminate(pgid) => match outcome {
            StepOutcome::Done => TerminationStep::AwaitExit(pgid),
            StepOutcome::Refused(reason) => TerminationStep::Finished(
                Err(TerminationError::TermRejected(reason)),
            ),
        },
        TerminationStep::AwaitExit(pgid) => TerminationStep::Probe(pgid),
        TerminationStep::Probe(pgid) => match outcome {
            StepOutcome::Done => TerminationStep::SendKill(pgid),
            StepOutcome::Refused(_) => TerminationStep::Finished(Ok(())),
        },
        TerminationStep::SendKill(pgid) => match outcome {
            StepOutcome::Done => TerminationStep::Finished(Ok(())),
            StepOutcome::Refused(reason) => TerminationStep::Finished(
                Err(TerminationError::KillRejected(reason)),
            ),
        },
        TerminationStep::Finished(result) => TerminationStep::Finished(result),
    }
}

/// The step that the shutdown has reached after the caller has taken the
/// steps it was asked to take, with the given outcomes in order.
pub open spec fn termination_after(step: TerminationStep, outcomes: Seq<StepOutcome>)
    -> TerminationStep
    decreases outcomes.len(),
{
    if outcomes.len() == 0 {
        step
    } else {
        termination_after(next_termination_step(step, outcomes[0]), outcomes.drop_first())
    }
}

/// The shutdown is bounded: whatever the outcomes, it is over after four
/// steps.
pub proof fn law_termination_ends(process_group_id: Option<i32>, outcomes: Seq<StepOutcome>)
    requires
        outcomes.len() >= 4,
    ensures
        termination_after(first_termination_step(process_group_id), outcomes) is Finished,
{
    let s0 = first_termination_step(process_group_id);
    let o1 = outcomes.drop_first();
    let s1 = next_termination_step(s0, outcomes[0]);
    let o2 = o1.drop_first();
    let s2 = next_termination_step(s1, o1[0]);
    let o3 = o2.drop_first();
    let s3 = next_termination_step(s2, o2[0]);
    let o4 = o3.drop_first();
    let s4 = next_termination_step(s3, o3[0]);
    assert(termination_after(s0, outcomes) == termination_after(s1, o1));
    assert(termination_after(s1, o1) == termination_after(s2, o2));
    assert(termination_after(s2, o2) == termination_after(s3, o3));
    assert(termination_after(s3, o3) == termination_after(s4, o4));
    lemma_finished_stays(s4, o4);
}

/// A finished shutdown stays as it ended.
pub proof fn lemma_finished_stays(step: TerminationStep, outcomes: Seq<StepOutcome>)
    requires
        step is Finished,
    ensures
        termination_after(step, outcomes) == step,
    decreases outcomes.len(),
{
    if outcomes.len() > 0 {
        lemma_finished_stays(next_termination_step(step, outcomes[0]), outcomes.drop_first());
    }
}

/// The group is killed only as a last resort: the forceful signal is asked
/// for only after a probe that found the group still there.
pub proof fn law_kill_follows_live_probe(step: TerminationStep, outcome: StepOutcome)
    ensures
        next_termination_step(step, outcome) is SendKill <==> step is Probe && outcome is Done,
        step is Probe && outcome is Refused ==> next_termination_step(step, outcome)
            == TerminationStep::Finished(Ok(())),
{
}

} // verus!
