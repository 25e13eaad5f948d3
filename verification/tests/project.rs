use flitter::error::{SessionError, SignalError, TerminationError, ValidationError};
use flitter::launch::{flutter_arguments, Args};
use flitter::notice::{Notice, NoticeLevel};
use flitter::project::{
    check_prerequisites, get_relative_path, relative_or_absolute, validate_flutter_project,
};

#[test]
fn file_below_the_root_is_shown_relative() {
    assert_eq!(get_relative_path("/work/app/lib/main.dart", "/work/app"), "lib/main.dart");
    assert_eq!(get_relative_path("/work/app/lib/main.dart", "/work/app/"), "lib/main.dart");
}

#[test]
fn file_outside_the_root_keeps_its_path() {
    assert_eq!(get_relative_path("/elsewhere/main.dart", "/work/app"), "/elsewhere/main.dart");
    assert_eq!(get_relative_path("/work/application/a.dart", "/work/app"), "/work/application/a.dart");
}

#[test]
fn shown_path_is_the_rest_or_the_whole() {
    assert_eq!(relative_or_absolute(Some("lib/a.dart".to_string()), "/x/lib/a.dart"), "lib/a.dart");
    assert_eq!(relative_or_absolute(None, "/x/lib/a.dart"), "/x/lib/a.dart");
}

#[test]
fn project_without_source_directory_is_refused() {
    assert!(validate_flutter_project("/work/app", true).is_ok());
    match validate_flutter_project("/work/app", false) {
        Err(SessionError::StartupValidation(ValidationError::MissingSourceDir(project))) => {
            assert_eq!(project, "/work/app")
        }
        other => panic!("unexpected {:?}", other),
    }
}

#[test]
fn missing_tool_is_refused() {
    assert!(check_prerequisites(true).is_ok());
    assert!(matches!(
        check_prerequisites(false),
        Err(SessionError::StartupValidation(ValidationError::MissingTool))
    ));
}

#[test]
fn every_error_has_its_message() {
    assert_eq!(
        SessionError::StartupValidation(ValidationError::MissingTool).message(),
        "Flutter CLI not found. Please install Flutter SDK."
    );
    assert_eq!(
        SessionError::StartupValidation(ValidationError::MissingSourceDir("/p".to_string()))
            .message(),
        "No lib/ directory found in /p. Are you in a Flutter project?"
    );
    assert_eq!(
        SessionError::StartupTimeout.message(),
        "Flutter failed to start - PID file not created"
    );
    assert_eq!(
        SessionError::WatchSetupFailure("no inotify".to_string()).message(),
        "Failed to watch the source directory: no inotify"
    );
    assert_eq!(SignalError::NoLockFile.message(), "PID file not found");
    assert_eq!(SignalError::ParseError.message(), "PID file does not hold a process id");
    assert_eq!(
        SessionError::SignalDispatchFailure(SignalError::SignalFailed("ESRCH".to_string()))
            .message(),
        "Failed to send signal to Flutter process: ESRCH"
    );
    assert_eq!(TerminationError::NoProcessGroup.message(), "No process group ID available");
    assert_eq!(
        TerminationError::TermRejected("EPERM".to_string()).message(),
        "Failed to send SIGTERM to process group: EPERM"
    );
    assert_eq!(
        SessionError::TerminationFailure(TerminationError::KillRejected("EPERM".to_string()))
            .message(),
        "Failed to send SIGKILL to process group: EPERM"
    );
}

#[test]
fn startup_errors_are_fatal_and_running_errors_are_not() {
    assert!(SessionError::StartupValidation(ValidationError::MissingTool).is_fatal());
    assert!(SessionError::StartupTimeout.is_fatal());
    assert!(SessionError::WatchSetupFailure("x".to_string()).is_fatal());
    assert!(!SessionError::SignalDispatchFailure(SignalError::NoLockFile).is_fatal());
    assert!(!SessionError::TerminationFailure(TerminationError::NoProcessGroup).is_fatal());
}

#[test]
fn notices_carry_the_mark_of_their_level() {
    assert_eq!(Notice::new(NoticeLevel::Success, "ok".to_string()).rendered(), "\u{2705} ok");
    assert_eq!(Notice::new(NoticeLevel::Error, "no".to_string()).rendered(), "\u{274C} no");
    assert_eq!(
        Notice::new(NoticeLevel::Warning, "hm".to_string()).rendered(),
        "\u{26A0}\u{FE0F}  hm"
    );
    assert_eq!(Notice::new(NoticeLevel::Info, "see".to_string()).rendered(), "\u{1F440} see");
}

fn plain_args() -> Args {
    Args {
        path: ".".to_string(),
        command: "run".to_string(),
        flavor: None,
        target: None,
        device_id: None,
        debug: false,
        profile: false,
        release: false,
        verbose: false,
        strip_flutter_prefix: true,
        flutter_args: Vec::new(),
    }
}

#[test]
fn bare_invocation_names_the_command_and_the_lock_file() {
    assert_eq!(
        flutter_arguments(&plain_args(), "/tmp/flutter-abcd1234.pid"),
        vec!["run", "--pid-file", "/tmp/flutter-abcd1234.pid"]
    );
}

#[test]
fn full_invocation_keeps_the_order_of_the_options() {
    let args = Args {
        command: "attach".to_string(),
        flavor: Some("dev".to_string()),
        target: Some("lib/main_dev.dart".to_string()),
        device_id: Some("emulator-5554".to_string()),
        debug: true,
        profile: true,
        release: true,
        verbose: true,
        flutter_args: vec!["--dart-define".to_string(), "A=1".to_string()],
        ..plain_args()
    };
    assert_eq!(
        flutter_arguments(&args, "/tmp/x.pid"),
        vec![
            "attach",
            "--pid-file",
            "/tmp/x.pid",
            "--flavor",
            "dev",
            "--target",
            "lib/main_dev.dart",
            "--device-id",
            "emulator-5554",
            "--debug",
            "--profile",
            "--release",
            "--verbose",
            "--dart-define",
            "A=1",
        ]
    );
}

#[test]
fn single_options_stand_alone() {
    let args = Args { release: true, target: Some("lib/a.dart".to_string()), ..plain_args() };
    assert_eq!(
        flutter_arguments(&args, "/tmp/x.pid"),
        vec!["run", "--pid-file", "/tmp/x.pid", "--target", "lib/a.dart", "--release"]
    );
}
