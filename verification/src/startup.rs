//! The readiness protocol: the tool writes its lock file once it is up, and
//! the supervisor looks for the file once a second until it is there or the
//! budget of looks is spent.

use vstd::prelude::*;
use crate::error::SessionError;
use crate::notice::{Notice, NoticeLevel};
use crate::text::{decimal_string, decimal_text, join};

verus! {

/// How often the supervisor looks for the lock file before it gives up.
pub const STARTUP_ATTEMPTS: u32 = 60;

/// Every how many looks the operator is told that the wait goes on.
pub const STARTUP_REPORT_INTERVAL: u32 = 10;

/// How long the supervisor waits between two looks, in milliseconds.
pub const STARTUP_POLL_MS: u64 = 1000;

/// What one look for the lock file leads to.
#[derive(Clone, Copy, Debug, PartialEq, Eq, Structural)]
pub enum StartupStep {
    /// The lock file is there: the tool is up.
    Ready,
    /// The lock file is not there yet: wait, then look again. `report` says
    /// whether to tell the operator first.
    Wait { report: bool },
    /// The budget is spent: the tool failed to start.
    TimedOut,
}

/// What look number `attempt`, counted from 0, leads to when it finds the
/// lock file present or absent.
pub open spec fn startup_decision(attempt: int, lock_file_exists: bool) -> StartupStep {
    if attempt >= STARTUP_ATTEMPTS {
        StartupStep::TimedOut
    } else if lock_file_exists {
        StartupStep::Ready
    } else {
        StartupStep::Wait { report: attempt % (STARTUP_REPORT_INTERVAL as int) == 0 }
    }
}

/// Decides one step of the wait for the lock file. `attempt` counts the
/// looks made so far, and `lock_file_exists` is what this look found.
pub fn poll_startup(attempt: u32, lock_file_exists: bool) -> (step: StartupStep)
    ensures
        step == startup_decision(attempt as int, lock_file_exists),
{
    if attempt >= STARTUP_ATTEMPTS {
        StartupStep::TimedOut
    } else if lock_file_exists {
        StartupStep::Ready
    } else {
        StartupStep::Wait { report: attempt % STARTUP_REPORT_INTERVAL == 0 }
    }
}

/// How the wait for the lock file ends when it goes on from look number
/// `attempt` and look `i` finds what `observed(i)` says: `Ok` with the
/// number of the look that found the file, or `Err` with the number of
/// looks after which the supervisor gave up.
pub open spec fn startup_outcome(attempt: int, observed: spec_fn(int) -> bool) -> Result<int, int>
    decreases STARTUP_ATTEMPTS - attempt,
{
    match startup_decision(attempt, observed(attempt)) {
        StartupStep::Ready => Ok(attempt),
        StartupStep::TimedOut => Err(attempt),
        StartupStep::Wait { .. } => startup_outcome(attempt + 1, observed),
    }
}

/// A lock file that never appears within the budget ends the startup with
/// a timeout, after exactly the budgeted number of looks.
pub proof fn law_absent_lock_file_times_out(observed: spec_fn(int) -> bool)
    requires
        forall|i: int| 0 <= i < STARTUP_ATTEMPTS ==> !#[trigger] observed(i),
    ensures
        startup_outcome(0, observed) == Err::<int, int>(STARTUP_ATTEMPTS as int),
{
    lemma_absent_from(0, observed);
}

proof fn lemma_absent_from(attempt: int, observed: spec_fn(int) -> bool)
    requires
        0 <= attempt <= STARTUP_ATTEMPTS,
        forall|i: int| attempt <= i < STARTUP_ATTEMPTS ==> !#[trigger] observed(i),
    ensures
        startup_outcome(attempt, observed) == Err::<int, int>(STARTUP_ATTEMPTS as int),
    decreases STARTUP_ATTEMPTS - attempt,
{
    if attempt < STARTUP_ATTEMPTS {
        assert(!observed(attempt));
        lemma_absent_from(attempt + 1, observed);
    }
}

/// A lock file that appears within the budget ends the startup with
/// success at the first look that finds it.
pub proof fn law_present_lock_file_is_found(observed: spec_fn(int) -> bool, first: int)
    requires
        0 <= first < STARTUP_ATTEMPTS,
        observed(first),
        forall|i: int| 0 <= i < first ==> !#[trigger] observed(i),
    ensures
        startup_outcome(0, observed) == Ok::<int, int>(first),
{
    lemma_present_from(0, observed, first);
}

proof fn lemma_present_from(attempt: int, observed: spec_fn(int) -> bool, first: int)
    requires
        0 <= attempt <= first < STARTUP_ATTEMPTS,
        observed(first),
        forall|i: int| attempt <= i < first ==> !#[trigger] observed(i),
    ensures
        startup_outcome(attempt, observed) == Ok::<int, int>(first),
    decreases first - attempt,
{
    if attempt < first {
        assert(!observed(attempt));
        lemma_present_from(attempt + 1, observed, first);
    }
}

/// The text that tells the operator that the wait goes on.
pub open spec fn waiting_text(attempt: int) -> Seq<char> {
    "Still waiting for PID file... ("@ + decimal_text((attempt + 1) as nat) + "/60)"@
}

/// The message that tells the operator that the wait goes on, shown before
/// the wait that follows look number `attempt`.
pub fn waiting_notice(attempt: u32) -> (notice: Notice)
    ensures
        notice@.level == NoticeLevel::Info,
        notice@.text == waiting_text(attempt as int),
{
    let number = decimal_string(attempt as u64 + 1);
    let mut text = join("Still waiting for PID file... (", number.as_str());
    text.append("/60)");
    Notice::new(NoticeLevel::Info, text)
}

/// The error with which a step ends the startup, if it does: running out
/// of looks is the startup timeout.
pub fn startup_failure(step: StartupStep) -> (failure: Option<SessionError>)
    ensures
        step == StartupStep::TimedOut ==> failure == Some(SessionError::StartupTimeout),
        step != StartupStep::TimedOut ==> failure is None,
{
    match step {
        StartupStep::TimedOut => Some(SessionError::StartupTimeout),
        _ => None,
    }
}

} // verus!
