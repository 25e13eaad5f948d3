//! The control loop: the single consumer of the session's events. It takes
//! one event at a time, in the order of arrival, and answers each with the
//! state it moves to and the action it asks for. It never cleans up; it
//! only changes state.

use vstd::prelude::*;
use crate::error::SignalError;
use crate::events::AppEvent;
use crate::notice::{Notice, NoticeLevel};
use crate::project::{get_relative_path, path_strip_prefix, shown_path};
use crate::signal::SignalKind;
use crate::text::{join, signed_decimal_string, signed_decimal_text};

verus! {

/// The interval of the loop's idle tick and of the liveness poll, in
/// milliseconds.
pub const POLL_INTERVAL_MS: u64 = 100;

/// The states of the control loop.
#[derive(Clone, Copy, Debug, PartialEq, Eq, Structural)]
pub enum LoopState {
    /// Events are handled.
    Running,
    /// The loop is over; what is left is cleanup.
    ShuttingDown,
}

/// What the loop asks its driver to do in answer to an event.
#[derive(Debug)]
pub enum LoopAction {
    /// Nothing.
    Idle,
    /// Ask the tool for a hot reload. `changed` is the file whose change
    /// led to it, or `None` where the operator asked.
    Reload { changed: Option<String> },
    /// Ask the tool for a hot restart.
    Restart,
    /// Show the debug information.
    ShowInfo,
    /// Tell the operator that the tool has exited with this code.
    ReportExit(i32),
}

/// Whether an event ends the loop: only a quit request or the exit of the
/// child does.
pub open spec fn ends_loop(event: AppEvent) -> bool {
    event is Quit || event is FlutterExited
}

/// The state that the loop moves to on an event, and the action it asks
/// for. Once it is shutting down, the loop handles nothing any more.
pub open spec fn loop_transition(state: LoopState, event: AppEvent) -> (LoopState, LoopAction) {
    match state {
        LoopState::ShuttingDown => (LoopState::ShuttingDown, LoopAction::Idle),
        LoopState::Running => match event {
            AppEvent::FileChanged(path) => (
                LoopState::Running,
                LoopAction::Reload { changed: Some(path) },
            ),
            AppEvent::HotReload => (LoopState::Running, LoopAction::Reload { changed: None }),
            AppEvent::HotRestart => (LoopState::Running, LoopAction::Restart),
            AppEvent::ShowInfo => (LoopState::Running, LoopAction::ShowInfo),
            AppEvent::FlutterOutput => (LoopState::Running, LoopAction::Idle),
            AppEvent::FlutterExited(code) => (
                LoopState::ShuttingDown,
                LoopAction::ReportExit(code),
            ),
            AppEvent::Quit => (LoopState::ShuttingDown, LoopAction::Idle),
        },
    }
}

/// Handles one event.
pub fn handle_event(state: LoopState, event: AppEvent) -> (next: (LoopState, LoopAction))
    ensures
        next == loop_transition(state, event),
{
    match state {
        LoopState::ShuttingDown => (LoopState::ShuttingDown, LoopAction::Idle),
        LoopState::Running => match event {
            AppEvent::FileChanged(path) => (
                LoopState::Running,
                LoopAction::Reload { changed: Some(path) },
            ),
            AppEvent::HotReload => (LoopState::Running, LoopAction::Reload { changed: None }),
            AppEvent::HotRestart => (LoopState::Running, LoopAction::Restart),
            AppEvent::ShowInfo => (LoopState::Running, LoopAction::ShowInfo),
            AppEvent::FlutterOutput => (LoopState::Running, LoopAction::Idle),
            AppEvent::FlutterExited(code) => (
                LoopState::ShuttingDown,
                LoopAction::ReportExit(code),
            ),
            AppEvent::Quit => (LoopState::ShuttingDown, LoopAction::Idle),
        },
    }
}

/// The state after an interrupt from outside: the loop shuts down.
pub fn interrupt(state: LoopState) -> (next: LoopState)
    ensures
        next == LoopState::ShuttingDown,
{
    LoopState::ShuttingDown
}

/// Whether the loop goes on to take another event.
pub fn keeps_running(state: LoopState) -> (running: bool)
    ensures
        running == (state == LoopState::Running),
{
    match state {
        LoopState::Running => true,
        LoopState::ShuttingDown => false,
    }
}

/// The state of the loop after a sequence of events, handled in order.
pub open spec fn state_after(state: LoopState, events: Seq<AppEvent>) -> LoopState
    decreases events.len(),
{
    if events.len() == 0 {
        state
    } else {
        state_after(loop_transition(state, events[0]).0, events.drop_first())
    }
}

/// Only a quit request or the exit of the child ends the loop: a running
/// loop is shutting down after a sequence of events exactly if one of them
/// was such an event.
pub proof fn law_only_quit_or_exit_ends_loop(events: Seq<AppEvent>)
    ensures
        state_after(LoopState::Running, events) == LoopState::ShuttingDown <==> exists|i: int|
            0 <= i < events.len() && ends_loop(#[trigger] events[i]),
    decreases events.len(),
{
    if events.len() > 0 {
        let rest = events.drop_first();
        if ends_loop(events[0]) {
            law_shutdown_is_final(rest);
        } else {
            law_only_quit_or_exit_ends_loop(rest);
            if exists|i: int| 0 <= i < rest.len() && ends_loop(#[trigger] rest[i]) {
                let i = choose|i: int| 0 <= i < rest.len() && ends_loop(#[trigger] rest[i]);
                assert(events[i + 1] == rest[i]);
            }
            if exists|i: int| 0 <= i < events.len() && ends_loop(#[trigger] events[i]) {
                let i = choose|i: int| 0 <= i < events.len() && ends_loop(#[trigger] events[i]);
                assert(rest[i - 1] == events[i]);
            }
        }
    }
}

/// A loop that is shutting down stays so and asks for nothing more.
pub proof fn law_shutdown_is_final(events: Seq<AppEvent>)
    ensures
        state_after(LoopState::ShuttingDown, events) == LoopState::ShuttingDown,
        forall|event: AppEvent| #[trigger]
            loop_transition(LoopState::ShuttingDown, event) == (
                LoopState::ShuttingDown,
                LoopAction::Idle,
            ),
    decreases events.len(),
{
    if events.len() > 0 {
        law_shutdown_is_final(events.drop_first());
    }
}

/// What the liveness poll found out about the child.
#[derive(Clone, Copy, Debug, PartialEq, Eq, Structural)]
pub enum ChildStatus {
    /// The child is still running, or could not be asked.
    Running,
    /// The child has exited, with this code if it has one.
    Exited(Option<i32>),
}

/// The exit code that is reported for a child that was ended by a signal
/// and so has none.
pub const NO_EXIT_CODE: i32 = -1;

/// The event that a liveness poll produces.
pub open spec fn liveness_outcome(status: ChildStatus) -> Option<AppEvent> {
    match status {
        ChildStatus::Running => None,
        ChildStatus::Exited(Some(code)) => Some(AppEvent::FlutterExited(code)),
        ChildStatus::Exited(None) => Some(AppEvent::FlutterExited(NO_EXIT_CODE)),
    }
}

/// Turns the result of a liveness poll into the event to send, if any.
pub fn liveness_event(status: ChildStatus) -> (event: Option<AppEvent>)
    ensures
        event == liveness_outcome(status),
{
    match status {
        ChildStatus::Running => None,
        ChildStatus::Exited(Some(code)) => Some(AppEvent::FlutterExited(code)),
        ChildStatus::Exited(None) => Some(AppEvent::FlutterExited(NO_EXIT_CODE)),
    }
}

/// The signal that an action asks to deliver, if any.
pub fn action_signal(action: &LoopAction) -> (kind: Option<SignalKind>)
    ensures
        kind == (match *action {
            LoopAction::Reload { .. } => Some(SignalKind::Reload),
            LoopAction::Restart => Some(SignalKind::Restart),
            _ => None,
        }),
{
    match action {
        LoopAction::Reload { .. } => Some(SignalKind::Reload),
        LoopAction::Restart => Some(SignalKind::Restart),
        _ => None,
    }
}

/// The line that announces a reload: a flame and the changed file, shown
/// relative to the project, or a flame and the word that the operator
/// asked.
pub open spec fn reload_headline(changed: Option<Seq<char>>, project_root: Seq<char>) -> Seq<
    char,
> {
    match changed {
        Some(path) => "\u{1F525} "@ + shown_path(path_strip_prefix(path, project_root), path),
        None => "\u{1F525} Manual hot reload"@,
    }
}

/// The line that announces a restart: two arrows in a circle and the word
/// that the operator asked.
pub open spec fn restart_headline() -> Seq<char> {
    "\u{1F504} Manual hot restart"@
}

/// The line that announces the signal of an action, before it is sent.
pub fn action_headline(action: &LoopAction, project_root: &str) -> (line: Option<String>)
    ensures
        match *action {
            LoopAction::Reload { changed: Some(path) } => line.is_some() && line.unwrap()@
                == reload_headline(Some(path@), project_root@),
            LoopAction::Reload { changed: None } => line.is_some() && line.unwrap()@
                == reload_headline(None, project_root@),
            LoopAction::Restart => line.is_some() && line.unwrap()@ == restart_headline(),
            _ => line.is_none(),
        },
{
    match action {
        LoopAction::Reload { changed: Some(path) } => {
            let shown = get_relative_path(path.as_str(), project_root);
            Some(join("\u{1F525} ", shown.as_str()))
        },
        LoopAction::Reload { changed: None } => Some(
            String::from_str("\u{1F525} Manual hot reload"),
        ),
        LoopAction::Restart => Some(String::from_str("\u{1F504} Manual hot restart")),
        _ => None,
    }
}

/// What a request is called in messages.
pub open spec fn request_name(kind: SignalKind) -> Seq<char> {
    match kind {
        SignalKind::Reload => "Hot reload"@,
        SignalKind::Restart => "Hot restart"@,
    }
}

/// The text that tells that a request failed, with the reason.
pub open spec fn request_failure_text(kind: SignalKind, reason: Seq<char>) -> Seq<char> {
    request_name(kind) + " failed: "@ + reason
}

/// The text that tells how a request went: that it was triggered, with the
/// time of day, or that it failed, with the reason.
pub open spec fn signal_report_text(
    kind: SignalKind,
    result: Result<(), SignalError>,
    timestamp: Seq<char>,
) -> Seq<char> {
    match result {
        Ok(_) => request_name(kind) + " triggered ("@ + timestamp + ")"@,
        Err(e) => request_failure_text(kind, e.message_text()),
    }
}

fn request_label(kind: SignalKind) -> (name: &'static str)
    ensures
        name@ == request_name(kind),
{
    match kind {
        SignalKind::Reload => "Hot reload",
        SignalKind::Restart => "Hot restart",
    }
}

/// Tells the operator that a request failed for the given reason. This is
/// a warning: the session goes on.
pub fn request_failure(kind: SignalKind, reason: &str) -> (notice: Notice)
    ensures
        notice@.level == NoticeLevel::Warning,
        notice@.text == request_failure_text(kind, reason@),
{
    let mut text = join(request_label(kind), " failed: ");
    text.append(reason);
    Notice::new(NoticeLevel::Warning, text)
}

/// Tells the operator how a reload or restart request went. A failure is a
/// warning: the session goes on.
pub fn signal_report(kind: SignalKind, result: &Result<(), SignalError>, timestamp: &str) -> (notice:
    Notice)
    ensures
        notice@.level == (if *result is Ok {
            NoticeLevel::Success
        } else {
            NoticeLevel::Warning
        }),
        notice@.text == signal_report_text(kind, *result, timestamp@),
{
    match result {
        Ok(_) => {
            let mut text = join(request_label(kind), " triggered (");
            text.append(timestamp);
            text.append(")");
            Notice::new(NoticeLevel::Success, text)
        },
        Err(e) => request_failure(kind, e.message().as_str()),
    }
}

/// Tells the operator that the tool has exited.
pub fn exit_report(code: i32) -> (notice: Notice)
    ensures
        notice@.level == NoticeLevel::Error,
        notice@.text == "Flutter process exited with code: "@ + signed_decimal_text(code as int),
{
    let number = signed_decimal_string(code);
    Notice::new(NoticeLevel::Error, join("Flutter process exited with code: ", number.as_str()))
}

} // verus!
