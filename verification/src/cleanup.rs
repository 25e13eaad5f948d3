//! Release of a session's resources. A session is wrapped in a guard from
//! which it can be taken exactly once; whoever takes it releases it, and
//! every later attempt finds nothing to do.

use vstd::prelude::*;
use crate::error::TerminationError;
use crate::notice::{Notice, NoticeLevel};
use crate::session::FlutterSession;
use crate::text::join;

verus! {

/// One release action that the caller is to perform. Each is best effort:
/// a failure is not reported back.
#[derive(Debug)]
pub enum ReleaseAction<P> {
    /// Deliver the forceful-termination signal to this process group.
    KillGroup(i32),
    /// Kill the child through its handle.
    KillChild(P),
    /// Remove the lock file at this path. A file that is gone already
    /// counts as removed.
    RemoveLockFile(String),
}

/// The mathematical content of a [`ReleaseAction`].
pub enum ReleaseStep<P> {
    KillGroup(i32),
    KillChild(P),
    RemoveLockFile(Seq<char>),
}

impl<P> View for ReleaseAction<P> {
    type V = ReleaseStep<P>;

    open spec fn view(&self) -> ReleaseStep<P> {
        match self {
            ReleaseAction::KillGroup(pgid) => ReleaseStep::KillGroup(*pgid),
            ReleaseAction::KillChild(process) => ReleaseStep::KillChild(*process),
            ReleaseAction::RemoveLockFile(path) => ReleaseStep::RemoveLockFile(path@),
        }
    }
}

/// The contents of a list of release actions.
pub open spec fn steps_of<P>(actions: Seq<ReleaseAction<P>>) -> Seq<ReleaseStep<P>> {
    Seq::new(actions.len(), |i: int| actions[i]@)
}

/// What is left to release on the normal path, once the shutdown of the
/// process group has been attempted. Where that attempt failed, the child
/// is killed through its handle, if the session still holds it. The lock
/// file is removed in any case.
pub open spec fn normal_release<P>(
    process: Option<P>,
    pid_file: Seq<char>,
    termination_failed: bool,
) -> Seq<ReleaseStep<P>> {
    (if termination_failed && process is Some {
        seq![ReleaseStep::KillChild(process->0)]
    } else {
        seq![]
    }) + seq![ReleaseStep::RemoveLockFile(pid_file)]
}

/// What is released on the abnormal path, when a session is discarded
/// without cleanup: the process group is killed outright, the lock file is
/// removed, and the child is killed through its handle.
pub open spec fn emergency_release<P>(
    process: Option<P>,
    pid_file: Seq<char>,
    process_group_id: Option<i32>,
) -> Seq<ReleaseStep<P>> {
    (match process_group_id {
        Some(pgid) => seq![ReleaseStep::KillGroup(pgid)],
        None => seq![],
    }) + seq![ReleaseStep::RemoveLockFile(pid_file)] + (match process {
        Some(process) => seq![ReleaseStep::KillChild(process)],
        None => seq![],
    })
}

fn push_action<P>(actions: &mut Vec<ReleaseAction<P>>, action: ReleaseAction<P>)
    ensures
        steps_of(final(actions)@) == steps_of(old(actions)@).push(action@),
{
    actions.push(action);
    assert(steps_of(actions@) =~= steps_of(old(actions)@).push(action@));
}

impl<P> FlutterSession<P> {
    /// Plans the rest of the normal cleanup, given how the shutdown of the
    /// process group went. The handle of the child, where the plan needs
    /// it, is moved out of the session.
    pub fn cleanup(&mut self, termination: &Result<(), TerminationError>) -> (actions: Vec<
        ReleaseAction<P>,
    >)
        ensures
            steps_of(actions@) == normal_release(
                old(self).process(),
                old(self).pid_file(),
                *termination is Err,
            ),
            final(self).process() == (if *termination is Err {
                None
            } else {
                old(self).process()
            }),
            final(self).pid_file() == old(self).pid_file(),
            final(self).info() == old(self).info(),
            final(self).shutdown() == old(self).shutdown(),
    {
        let mut actions: Vec<ReleaseAction<P>> = Vec::new();
        assert(steps_of(actions@) =~= seq![]);
        if termination.is_err() {
            let process = self.process_mut().take();
            if let Some(process) = process {
                push_action(&mut actions, ReleaseAction::KillChild(process));
            }
        }
        push_action(&mut actions, ReleaseAction::RemoveLockFile(self.lock_file().clone()));
        assert(steps_of(actions@) =~= normal_release(
            old(self).process(),
            old(self).pid_file(),
            *termination is Err,
        ));
        actions
    }

    /// Plans the release of a session that is discarded without cleanup.
    /// The handle of the child is moved out of the session.
    pub fn emergency_cleanup(&mut self) -> (actions: Vec<ReleaseAction<P>>)
        ensures
            steps_of(actions@) == emergency_release(
                old(self).process(),
                old(self).pid_file(),
                old(self).info().process_group_id,
            ),
            final(self).process() is None,
            final(self).pid_file() == old(self).pid_file(),
            final(self).info() == old(self).info(),
            final(self).shutdown() == old(self).shutdown(),
    {
        let mut actions: Vec<ReleaseAction<P>> = Vec::new();
        assert(steps_of(actions@) =~= seq![]);
        if let Some(pgid) = self.debug_info().process_group_id() {
            push_action(&mut actions, ReleaseAction::KillGroup(pgid));
        }
        push_action(&mut actions, ReleaseAction::RemoveLockFile(self.lock_file().clone()));
        let process = self.process_mut().take();
        if let Some(process) = process {
            push_action(&mut actions, ReleaseAction::KillChild(process));
        }
        assert(steps_of(actions@) =~= emergency_release(
            old(self).process(),
            old(self).pid_file(),
            old(self).info().process_group_id,
        ));
        actions
    }
}

/// The warning that the shutdown of the process group failed and the child
/// is killed directly instead.
pub fn termination_warning(error: &TerminationError) -> (notice: Notice)
    ensures
        notice@.level == NoticeLevel::Warning,
        notice@.text == "Process group termination failed: "@ + error.message_text(),
{
    Notice::new(
        NoticeLevel::Warning,
        join("Process group termination failed: ", error.message().as_str()),
    )
}

/// The container from which a session is taken for release, once.
pub struct CleanupGuard<P> {
    session: Option<FlutterSession<P>>,
}

impl<P> CleanupGuard<P> {
    /// The session that the guard holds, until it is taken.
    pub closed spec fn session(self) -> Option<FlutterSession<P>> {
        self.session
    }

    /// Wraps a session.
    pub fn new(session: FlutterSession<P>) -> (guard: CleanupGuard<P>)
        ensures
            guard.session() == Some(session),
    {
        CleanupGuard { session: Some(session) }
    }

    /// Whether the session is still there to be released.
    pub fn is_armed(&self) -> (armed: bool)
        ensures
            armed == self.session() is Some,
    {
        self.session.is_some()
    }

    /// The session, while the guard holds it.
    pub fn session_mut(&mut self) -> (session: &mut Option<FlutterSession<P>>)
        ensures
            *session == old(self).session(),
            final(self).session() == *final(session),
    {
        &mut self.session
    }

    /// Takes the session out for the normal cleanup. The first call hands
    /// the session over; every later call, and every call after a discard,
    /// finds nothing and is a no-op.
    pub fn cleanup(&mut self) -> (taken: Option<FlutterSession<P>>)
        ensures
            taken == old(self).session(),
            final(self).session() is None,
    {
        self.session.take()
    }

    /// Releases a session that was never cleaned up, as happens when the
    /// guard is given up on an error path. Where the session has been taken
    /// before, there is nothing to release.
    pub fn discard(&mut self) -> (actions: Vec<ReleaseAction<P>>)
        ensures
            final(self).session() is None,
            steps_of(actions@) == (match old(self).session() {
                Some(session) => emergency_release(
                    session.process(),
                    session.pid_file(),
                    session.info().process_group_id,
                ),
                None => seq![],
            }),
    {
        match self.session.take() {
            Some(mut session) => session.emergency_cleanup(),
            None => {
                let actions: Vec<ReleaseAction<P>> = Vec::new();
                assert(steps_of(actions@) =~= seq![]);
                actions
            },
        }
    }
}

/// The two ways in which a guard is asked to release its session.
pub enum GuardCall {
    /// The explicit cleanup.
    Cleanup,
    /// The discard on an abnormal path.
    Discard,
}

/// The number of calls, out of a sequence of calls made on one guard in
/// order, that find a session to release. `armed` says whether the guard
/// holds its session before the first of them.
pub open spec fn releases(armed: bool, calls: Seq<GuardCall>) -> nat
    decreases calls.len(),
{
    if calls.len() == 0 {
        0
    } else {
        (if armed {
            1nat
        } else {
            0nat
        }) + releases(false, calls.drop_first())
    }
}

/// Cleanup is idempotent: however often and in whichever order cleanup and
/// discard are called on a guard, the session is released at most once, by
/// the first call, and by none where the guard was empty to begin with.
pub proof fn law_release_at_most_once(armed: bool, calls: Seq<GuardCall>)
    ensures
        releases(armed, calls) <= 1,
        releases(armed, calls) == 1 <==> armed && calls.len() > 0,
    decreases calls.len(),
{
    if calls.len() > 0 {
        law_release_at_most_once(false, calls.drop_first());
    }
}

} // verus!
