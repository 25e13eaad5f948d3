use flitter::debug_info::{display_debug_info, display_with_label, DebugInfo};
use flitter::error::{SessionError, SignalError, TerminationError};
use flitter::event_loop::{
    action_headline, action_signal, exit_report, handle_event, interrupt, keeps_running,
    liveness_event, request_failure, signal_report, ChildStatus, LoopAction, LoopState,
};
use flitter::events::AppEvent;
use flitter::notice::NoticeLevel;
use flitter::cleanup::{termination_warning, CleanupGuard, ReleaseAction};
use flitter::session::FlutterSession;
use flitter::signal::{
    delivery_result, parse_number, parse_pid, send_signal_to_flutter, SignalKind, SignalOrder,
};
use flitter::startup::{
    poll_startup, startup_failure, waiting_notice, StartupStep, STARTUP_ATTEMPTS,
};
use flitter::termination::{
    continue_termination, terminate_flutter_process_group, StepOutcome, TerminationStep,
};

#[test]
fn lock_file_that_never_appears_times_out() {
    let mut attempt: u32 = 0;
    let mut reports = Vec::new();
    let step = loop {
        match poll_startup(attempt, false) {
            StartupStep::Wait { report } => {
                if report {
                    reports.push(waiting_notice(attempt).text);
                }
                attempt += 1;
            }
            other => break other,
        }
    };
    assert_eq!(step, StartupStep::TimedOut);
    assert_eq!(attempt, STARTUP_ATTEMPTS);
    assert!(matches!(startup_failure(step), Some(SessionError::StartupTimeout)));
    assert_eq!(
        reports,
        vec![
            "Still waiting for PID file... (1/60)",
            "Still waiting for PID file... (11/60)",
            "Still waiting for PID file... (21/60)",
            "Still waiting for PID file... (31/60)",
            "Still waiting for PID file... (41/60)",
            "Still waiting for PID file... (51/60)",
        ]
    );
}

#[test]
fn timed_out_startup_leaves_no_child_after_cleanup() {
    let mut session: FlutterSession<u8> =
        FlutterSession::new("abcd1234".to_string(), "/work/app".to_string(), None);
    session.attach_process(9, 31337);
    let mut guard = CleanupGuard::new(session);
    assert_eq!(poll_startup(STARTUP_ATTEMPTS, false), StartupStep::TimedOut);
    let actions = guard.discard();
    assert!(matches!(actions[0], ReleaseAction::KillGroup(31337)));
    assert!(actions.iter().any(|a| matches!(a, ReleaseAction::KillChild(9))));
    assert!(actions.iter().any(|a| matches!(a, ReleaseAction::RemoveLockFile(_))));
    assert!(guard.discard().is_empty());
}

#[test]
fn lock_file_that_appears_ends_the_wait() {
    assert_eq!(poll_startup(0, true), StartupStep::Ready);
    assert_eq!(poll_startup(59, true), StartupStep::Ready);
    assert_eq!(poll_startup(59, false), StartupStep::Wait { report: false });
    assert_eq!(poll_startup(50, false), StartupStep::Wait { report: true });
    assert_eq!(poll_startup(60, true), StartupStep::TimedOut);
    assert!(startup_failure(StartupStep::Ready).is_none());
    assert!(startup_failure(StartupStep::Wait { report: true }).is_none());
}

#[test]
fn pid_is_read_from_the_lock_file() {
    assert_eq!(parse_pid("12345"), Some(12345));
    assert_eq!(parse_pid("12345\n"), Some(12345));
    assert_eq!(parse_pid("  42\t\r\n"), Some(42));
    assert_eq!(parse_pid("007"), Some(7));
    assert_eq!(parse_pid("1"), Some(1));
    assert_eq!(parse_pid("2147483647"), Some(2147483647));
}

#[test]
fn text_that_is_no_pid_is_refused() {
    for text in [
        "", "   ", "+", "+7", "-1", "12a", "a12", "1 2", "99999999999999999999999", "0x10", "1.0",
        "++1", "\u{0661}",
    ] {
        assert_eq!(parse_pid(text), None, "text {:?}", text);
    }
}

#[test]
fn number_that_names_no_single_process_is_refused() {
    for text in ["0", "000", "2147483648", "4294967295", "4294967296", "18446744073709551616"] {
        assert_eq!(parse_pid(text), None, "text {:?}", text);
        assert!(matches!(
            send_signal_to_flutter(Some(text), SignalKind::Reload),
            Err(SignalError::ParseError)
        ));
    }
}

#[test]
fn plain_numerals_are_read_as_the_standard_library_reads_them() {
    for text in ["1", "00", "10", "999", "2147483647", "2147483648", "", "9x", " 5", "5 "] {
        let expected = text.parse::<i32>().ok().filter(|number| *number >= 1);
        assert_eq!(parse_number(text), expected, "text {:?}", text);
    }
}

#[test]
fn signal_goes_to_the_pid_in_the_lock_file() {
    assert_eq!(
        send_signal_to_flutter(Some("4711\n"), SignalKind::Reload).unwrap(),
        SignalOrder { pid: 4711, kind: SignalKind::Reload }
    );
    assert_eq!(
        send_signal_to_flutter(Some("4711"), SignalKind::Restart).unwrap(),
        SignalOrder { pid: 4711, kind: SignalKind::Restart }
    );
}

#[test]
fn signal_dispatch_names_its_failures() {
    assert!(matches!(
        send_signal_to_flutter(None, SignalKind::Reload),
        Err(SignalError::NoLockFile)
    ));
    assert!(matches!(
        send_signal_to_flutter(Some("not a pid"), SignalKind::Reload),
        Err(SignalError::ParseError)
    ));
    assert!(delivery_result(None).is_ok());
    match delivery_result(Some("ESRCH: No such process".to_string())) {
        Err(SignalError::SignalFailed(reason)) => assert_eq!(reason, "ESRCH: No such process"),
        other => panic!("unexpected {:?}", other),
    }
}

#[test]
fn group_that_exits_in_time_is_not_killed() {
    let step = terminate_flutter_process_group(Some(4242));
    assert!(matches!(step, TerminationStep::SendTerminate(4242)));
    let step = continue_termination(step, StepOutcome::Done);
    assert!(matches!(step, TerminationStep::AwaitExit(4242)));
    let step = continue_termination(step, StepOutcome::Done);
    assert!(matches!(step, TerminationStep::Probe(4242)));
    let step = continue_termination(step, StepOutcome::Refused("ESRCH".to_string()));
    assert!(matches!(step, TerminationStep::Finished(Ok(()))));
    let step = continue_termination(step, StepOutcome::Done);
    assert!(matches!(step, TerminationStep::Finished(Ok(()))));
}

#[test]
fn group_that_lingers_is_killed() {
    let step = terminate_flutter_process_group(Some(4242));
    let step = continue_termination(step, StepOutcome::Done);
    let step = continue_termination(step, StepOutcome::Done);
    let step = continue_termination(step, StepOutcome::Done);
    assert!(matches!(step, TerminationStep::SendKill(4242)));
    let step = continue_termination(step, StepOutcome::Done);
    assert!(matches!(step, TerminationStep::Finished(Ok(()))));
}

#[test]
fn refused_signals_end_the_termination_with_an_error() {
    assert!(matches!(
        terminate_flutter_process_group(None),
        TerminationStep::Finished(Err(TerminationError::NoProcessGroup))
    ));
    let step = continue_termination(
        TerminationStep::SendTerminate(1),
        StepOutcome::Refused("EPERM".to_string()),
    );
    match step {
        TerminationStep::Finished(Err(TerminationError::TermRejected(reason))) => {
            assert_eq!(reason, "EPERM")
        }
        other => panic!("unexpected {:?}", other),
    }
    let step =
        continue_termination(TerminationStep::SendKill(1), StepOutcome::Refused("EPERM".to_string()));
    match step {
        TerminationStep::Finished(Err(TerminationError::KillRejected(reason))) => {
            assert_eq!(reason, "EPERM")
        }
        other => panic!("unexpected {:?}", other),
    }
    assert_eq!(
        termination_warning(&TerminationError::NoProcessGroup).text,
        "Process group termination failed: No process group ID available"
    );
}

#[test]
fn quit_while_healthy_shuts_down_and_releases() {
    let mut session: FlutterSession<u8> =
        FlutterSession::new("abcd1234".to_string(), "/work/app".to_string(), None);
    session.attach_process(9, 31337);
    let mut guard = CleanupGuard::new(session);

    let (state, action) = handle_event(LoopState::Running, AppEvent::Quit);
    assert_eq!(state, LoopState::ShuttingDown);
    assert!(matches!(action, LoopAction::Idle));
    assert!(!keeps_running(state));

    let mut session = guard.cleanup().unwrap();
    let step = terminate_flutter_process_group(session.debug_info().process_group_id());
    assert!(matches!(step, TerminationStep::SendTerminate(31337)));
    let step = continue_termination(step, StepOutcome::Done);
    let step = continue_termination(step, StepOutcome::Done);
    let step = continue_termination(step, StepOutcome::Refused("ESRCH".to_string()));
    let result = match step {
        TerminationStep::Finished(result) => result,
        other => panic!("unexpected {:?}", other),
    };
    assert!(result.is_ok());
    let actions = session.cleanup(&result);
    assert_eq!(actions.len(), 1);
    match &actions[0] {
        ReleaseAction::RemoveLockFile(path) => assert_eq!(path, "/tmp/flutter-abcd1234.pid"),
        other => panic!("unexpected {:?}", other),
    }
    assert!(guard.cleanup().is_none());
}

#[test]
fn events_lead_to_their_actions() {
    let (state, action) =
        handle_event(LoopState::Running, AppEvent::FileChanged("/p/lib/a.dart".to_string()));
    assert_eq!(state, LoopState::Running);
    match &action {
        LoopAction::Reload { changed: Some(path) } => assert_eq!(path, "/p/lib/a.dart"),
        other => panic!("unexpected {:?}", other),
    }
    assert_eq!(action_signal(&action), Some(SignalKind::Reload));
    assert_eq!(action_headline(&action, "/p").unwrap(), "\u{1F525} lib/a.dart");

    let (state, action) = handle_event(LoopState::Running, AppEvent::HotReload);
    assert_eq!(state, LoopState::Running);
    assert!(matches!(action, LoopAction::Reload { changed: None }));
    assert_eq!(action_headline(&action, "/p").unwrap(), "\u{1F525} Manual hot reload");

    let (state, action) = handle_event(LoopState::Running, AppEvent::HotRestart);
    assert_eq!(state, LoopState::Running);
    assert!(matches!(action, LoopAction::Restart));
    assert_eq!(action_signal(&action), Some(SignalKind::Restart));
    assert_eq!(action_headline(&action, "/p").unwrap(), "\u{1F504} Manual hot restart");

    let (state, action) = handle_event(LoopState::Running, AppEvent::ShowInfo);
    assert_eq!(state, LoopState::Running);
    assert!(matches!(action, LoopAction::ShowInfo));
    assert_eq!(action_signal(&action), None);
    assert!(action_headline(&action, "/p").is_none());

    let (state, action) = handle_event(LoopState::Running, AppEvent::FlutterOutput);
    assert_eq!(state, LoopState::Running);
    assert!(matches!(action, LoopAction::Idle));
}

#[test]
fn exit_of_the_child_ends_the_loop() {
    let (state, action) = handle_event(LoopState::Running, AppEvent::FlutterExited(2));
    assert_eq!(state, LoopState::ShuttingDown);
    assert!(matches!(action, LoopAction::ReportExit(2)));
    let notice = exit_report(2);
    assert_eq!(notice.level, NoticeLevel::Error);
    assert_eq!(notice.text, "Flutter process exited with code: 2");
    assert_eq!(exit_report(-1).text, "Flutter process exited with code: -1");
}

#[test]
fn shutting_down_loop_handles_nothing() {
    for event in [
        AppEvent::HotReload,
        AppEvent::HotRestart,
        AppEvent::ShowInfo,
        AppEvent::Quit,
        AppEvent::FlutterOutput,
        AppEvent::FlutterExited(0),
        AppEvent::FileChanged("a.dart".to_string()),
    ] {
        let (state, action) = handle_event(LoopState::ShuttingDown, event);
        assert_eq!(state, LoopState::ShuttingDown);
        assert!(matches!(action, LoopAction::Idle));
    }
    assert_eq!(interrupt(LoopState::Running), LoopState::ShuttingDown);
    assert!(keeps_running(LoopState::Running));
}

#[test]
fn liveness_poll_reports_an_exit_with_its_code() {
    assert!(liveness_event(ChildStatus::Running).is_none());
    assert!(matches!(
        liveness_event(ChildStatus::Exited(Some(3))),
        Some(AppEvent::FlutterExited(3))
    ));
    assert!(matches!(
        liveness_event(ChildStatus::Exited(None)),
        Some(AppEvent::FlutterExited(-1))
    ));
}

#[test]
fn failed_signal_is_a_warning_and_the_loop_goes_on() {
    let notice = signal_report(SignalKind::Reload, &Err(SignalError::NoLockFile), "12:00:00");
    assert_eq!(notice.level, NoticeLevel::Warning);
    assert_eq!(notice.text, "Hot reload failed: PID file not found");
    let notice = signal_report(SignalKind::Restart, &Err(SignalError::ParseError), "12:00:00");
    assert_eq!(notice.text, "Hot restart failed: PID file does not hold a process id");
    let notice = signal_report(SignalKind::Reload, &Ok(()), "12:34:56");
    assert_eq!(notice.level, NoticeLevel::Success);
    assert_eq!(notice.text, "Hot reload triggered (12:34:56)");
    let notice = signal_report(SignalKind::Restart, &Ok(()), "12:34:56");
    assert_eq!(notice.text, "Hot restart triggered (12:34:56)");
    let notice = request_failure(SignalKind::Reload, "Permission denied (os error 13)");
    assert_eq!(notice.level, NoticeLevel::Warning);
    assert_eq!(notice.text, "Hot reload failed: Permission denied (os error 13)");
}

#[test]
fn display_shows_what_is_known() {
    let mut info = DebugInfo::new(
        "abcd1234".to_string(),
        "/tmp/flutter-abcd1234.pid".to_string(),
        "/work/app".to_string(),
        None,
    );
    assert_eq!(
        display_debug_info(&info),
        vec![
            "\u{1F4CB} ID: abcd1234",
            "\u{1F4C1} Project Path: /work/app",
            "\u{1F4C4} PID File: /tmp/flutter-abcd1234.pid",
        ]
    );
    info.set_launch("Pixel 5".to_string(), "debug".to_string());
    info.note_android_log_pid("4321".to_string());
    info.set_vm_service_url("http://vm".to_string());
    info.set_devtools_url("http://dt".to_string());
    info.set_app_check_token("tok".to_string());
    assert_eq!(
        display_debug_info(&info),
        vec![
            "\u{1F4CB} ID: abcd1234 / PID: 4321 / \u{1F527} DEBUG",
            "\u{1F4C1} Project Path: /work/app",
            "\u{1F4C4} PID File: /tmp/flutter-abcd1234.pid",
            "\u{1F4F1} Device: Pixel 5",
            "\u{1F310} VM Service: http://vm",
            "\u{1F6E0}\u{FE0F} DevTools: http://dt",
            "\u{1F510} Firebase App Check Token: tok",
        ]
    );
}

#[test]
fn display_puts_the_device_id_in_brackets() {
    let mut info = DebugInfo::new(
        "s".to_string(),
        "f".to_string(),
        "p".to_string(),
        Some("emulator-5554".to_string()),
    );
    info.set_launch("Pixel 5".to_string(), "profile".to_string());
    let lines = display_debug_info(&info);
    assert_eq!(lines[0], "\u{1F4CB} ID: s / \u{1F527} PROFILE");
    assert_eq!(lines[3], "\u{1F4F1} Device: Pixel 5 (emulator-5554)");
    let lines = display_with_label(&info, &None);
    assert_eq!(lines[0], "\u{1F4CB} ID: s");
    let lines = display_with_label(&info, &Some("Mode".to_string()));
    assert_eq!(lines[0], "\u{1F4CB} ID: s / \u{1F527} Mode");
}

#[test]
fn snapshot_and_setters_keep_the_rest() {
    let mut info = DebugInfo::default();
    info.record_process_group(10);
    info.record_process_group(20);
    assert_eq!(info.process_group_id(), Some(10));
    info.note_android_log_pid("1".to_string());
    info.note_android_log_pid("2".to_string());
    assert_eq!(*info.android_log_pid(), Some("1".to_string()));
    let copy = info.snapshot();
    assert_eq!(copy.process_group_id(), Some(10));
    assert_eq!(*copy.android_log_pid(), Some("1".to_string()));
    assert_eq!(copy.session_id(), "");
}
