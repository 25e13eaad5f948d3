use flitter::debug_info::DebugInfo;
use flitter::events::AppEvent;
use flitter::scanner::{
    clean_flutter_log_line, clean_with, glyph_for_level, record_captures, Echo, LineCleaner,
    OutputParser, OutputScanner,
};

#[test]
fn test_output_parser() {
    let parser = OutputParser::new().unwrap();
    let mut debug_info = DebugInfo::default();

    parser.parse_line(
        "A Dart VM Service on Pixel 5 is available at: http://127.0.0.1:52195/6p6i7h7yeS0=/",
        &mut debug_info,
    );
    assert_eq!(
        *debug_info.vm_service_url(),
        Some("http://127.0.0.1:52195/6p6i7h7yeS0=/".to_string())
    );

    parser.parse_line(
        "The Flutter DevTools debugger and profiler on Pixel 5 is available at: http://127.0.0.1:9107?uri=http://127.0.0.1:49585/gpYYaPaI9xM=/",
        &mut debug_info,
    );
    assert_eq!(
        *debug_info.devtools_url(),
        Some("http://127.0.0.1:9107?uri=http://127.0.0.1:49585/gpYYaPaI9xM=/".to_string())
    );

    parser.parse_line(
        "Enter this debug secret into the allow list in the Firebase Console for your project: 3df0581b-bd02-4109-91b0-1c202ff762eb",
        &mut debug_info,
    );
    assert_eq!(
        *debug_info.app_check_token(),
        Some("3df0581b-bd02-4109-91b0-1c202ff762eb".to_string())
    );

    parser.parse_line(
        "Launching lib/entrypoint_onescene.dart on Pixel 5 in debug mode...",
        &mut debug_info,
    );
    assert_eq!(*debug_info.device_info(), Some("Pixel 5".to_string()));
    assert_eq!(*debug_info.build_mode(), Some("debug".to_string()));
}

#[test]
fn vm_service_line_sets_the_url() {
    let parser = OutputParser::new().unwrap();
    let mut info = DebugInfo::default();
    let notes = parser.parse_line(
        "A Dart VM Service ... is available at: http://127.0.0.1:52195/token/",
        &mut info,
    );
    assert_eq!(*info.vm_service_url(), Some("http://127.0.0.1:52195/token/".to_string()));
    assert_eq!(notes, vec!["Captured VM Service URL: http://127.0.0.1:52195/token/".to_string()]);
}

#[test]
fn launch_line_sets_device_and_mode() {
    let parser = OutputParser::new().unwrap();
    let mut info = DebugInfo::default();
    let notes =
        parser.parse_line("Launching lib/main.dart on Pixel 5 in debug mode...", &mut info);
    assert_eq!(*info.device_info(), Some("Pixel 5".to_string()));
    assert_eq!(*info.build_mode(), Some("debug".to_string()));
    assert!(notes.is_empty());
}

#[test]
fn matching_line_leaves_the_other_fields_untouched() {
    let parser = OutputParser::new().unwrap();
    let mut info = DebugInfo::new(
        "abcd1234".to_string(),
        "/tmp/flutter-abcd1234.pid".to_string(),
        "/work/app".to_string(),
        Some("emulator-5554".to_string()),
    );
    parser.parse_line(
        "The Flutter DevTools debugger is available at: http://127.0.0.1:9100",
        &mut info,
    );
    assert_eq!(*info.devtools_url(), Some("http://127.0.0.1:9100".to_string()));
    assert_eq!(*info.vm_service_url(), None);
    assert_eq!(*info.app_check_token(), None);
    assert_eq!(*info.device_info(), None);
    assert_eq!(*info.build_mode(), None);
    assert_eq!(*info.android_log_pid(), None);
    assert_eq!(*info.device_id(), Some("emulator-5554".to_string()));
    assert_eq!(info.session_id(), "abcd1234");
    assert_eq!(info.pid_file(), "/tmp/flutter-abcd1234.pid");
    assert_eq!(info.project_path(), "/work/app");
    assert_eq!(info.process_group_id(), None);
}

#[test]
fn unmatched_line_never_clears_a_field() {
    let parser = OutputParser::new().unwrap();
    let mut info = DebugInfo::default();
    parser.parse_line(
        "A Dart VM Service on Pixel 5 is available at: http://127.0.0.1:1/a/",
        &mut info,
    );
    parser.parse_line("Launching lib/main.dart on Pixel 5 in profile mode...", &mut info);
    let notes = parser.parse_line("Syncing files to device Pixel 5...", &mut info);
    assert!(notes.is_empty());
    assert_eq!(*info.vm_service_url(), Some("http://127.0.0.1:1/a/".to_string()));
    assert_eq!(*info.device_info(), Some("Pixel 5".to_string()));
    assert_eq!(*info.build_mode(), Some("profile".to_string()));
}

#[test]
fn newer_match_overwrites_the_older_one() {
    let parser = OutputParser::new().unwrap();
    let mut info = DebugInfo::default();
    parser.parse_line(
        "A Dart VM Service on Pixel 5 is available at: http://127.0.0.1:1/a/",
        &mut info,
    );
    parser.parse_line(
        "A Dart VM Service on Pixel 5 is available at: http://127.0.0.1:2/b/",
        &mut info,
    );
    assert_eq!(*info.vm_service_url(), Some("http://127.0.0.1:2/b/".to_string()));
}

#[test]
fn record_captures_takes_group_one_of_each_match() {
    let mut info = DebugInfo::default();
    let vm = Some(vec![Some("whole".to_string()), Some("http://vm".to_string())]);
    let token = Some(vec![Some("whole".to_string()), Some("abc-123".to_string())]);
    let launch = Some(vec![
        Some("whole".to_string()),
        Some("Pixel 5".to_string()),
        Some("release".to_string()),
    ]);
    let notes = record_captures(&mut info, &vm, &None, &token, &launch);
    assert_eq!(
        notes,
        vec![
            "Captured VM Service URL: http://vm".to_string(),
            "Captured Firebase App Check Token: abc-123".to_string(),
        ]
    );
    assert_eq!(*info.vm_service_url(), Some("http://vm".to_string()));
    assert_eq!(*info.devtools_url(), None);
    assert_eq!(*info.app_check_token(), Some("abc-123".to_string()));
    assert_eq!(*info.device_info(), Some("Pixel 5".to_string()));
    assert_eq!(*info.build_mode(), Some("release".to_string()));
}

#[test]
fn launch_needs_both_groups() {
    let mut info = DebugInfo::default();
    let launch = Some(vec![Some("whole".to_string()), Some("Pixel 5".to_string()), None]);
    record_captures(&mut info, &None, &None, &None, &launch);
    assert_eq!(*info.device_info(), None);
    assert_eq!(*info.build_mode(), None);
}

#[test]
fn android_line_is_cleaned_and_its_pid_noted_once() {
    let cleaner = LineCleaner::new().unwrap();
    let mut info = DebugInfo::default();
    let shown = clean_flutter_log_line(&cleaner, "I/flutter (12345): hello world", &mut info);
    assert_eq!(shown, "\u{24D8} hello world");
    assert_eq!(*info.android_log_pid(), Some("12345".to_string()));
    let shown = clean_flutter_log_line(&cleaner, "E/flutter (777): boom", &mut info);
    assert_eq!(shown, "\u{274C} boom");
    assert_eq!(*info.android_log_pid(), Some("12345".to_string()));
}

#[test]
fn macos_line_loses_its_prefix() {
    let cleaner = LineCleaner::new().unwrap();
    let mut info = DebugInfo::default();
    let shown = clean_flutter_log_line(&cleaner, "flutter: tapped", &mut info);
    assert_eq!(shown, "tapped");
    assert_eq!(*info.android_log_pid(), None);
}

#[test]
fn unknown_line_is_shown_unchanged() {
    let cleaner = LineCleaner::new().unwrap();
    let mut info = DebugInfo::default();
    let shown = clean_flutter_log_line(&cleaner, "Performing hot reload...", &mut info);
    assert_eq!(shown, "Performing hot reload...");
}

#[test]
fn every_level_has_its_glyph() {
    assert_eq!(glyph_for_level("I"), "\u{24D8}");
    assert_eq!(glyph_for_level("D"), "\u{1F41B}");
    assert_eq!(glyph_for_level("W"), "\u{26A0}\u{FE0F}");
    assert_eq!(glyph_for_level("E"), "\u{274C}");
    assert_eq!(glyph_for_level("V"), "\u{1F50D}");
    assert_eq!(glyph_for_level("X"), "\u{1F4DD}");
    assert_eq!(glyph_for_level("II"), "\u{1F4DD}");
    assert_eq!(glyph_for_level(""), "\u{1F4DD}");
}

#[test]
fn clean_with_prefers_the_android_form() {
    let mut info = DebugInfo::default();
    let android = Some(vec![
        Some("W/flutter (9): careful".to_string()),
        Some("W".to_string()),
        Some("9".to_string()),
        Some("careful".to_string()),
    ]);
    let macos = Some(vec![Some("flutter: x".to_string()), Some("x".to_string())]);
    assert_eq!(clean_with("raw", &android, &macos, &mut info), "\u{26A0}\u{FE0F} careful");
    assert_eq!(*info.android_log_pid(), Some("9".to_string()));
    let mut info = DebugInfo::default();
    assert_eq!(clean_with("raw", &None, &macos, &mut info), "x");
    assert_eq!(clean_with("raw", &None, &None, &mut info), "raw");
    assert_eq!(*info.android_log_pid(), None);
}

#[test]
fn blank_line_asks_for_nothing() {
    let scanner = OutputScanner::new().unwrap();
    let mut info = DebugInfo::default();
    let report = scanner.scan_line("  \t\r\n", true, &mut info);
    assert!(report.confirmations.is_empty());
    assert!(report.event.is_none());
    assert!(report.echo.is_none());
}

#[test]
fn stdout_line_is_scanned_announced_and_cleaned() {
    let scanner = OutputScanner::new().unwrap();
    let mut info = DebugInfo::default();
    let report = scanner.scan_line(
        "I/flutter (42): A Dart VM Service on Pixel 5 is available at: http://127.0.0.1:5/x/\n",
        true,
        &mut info,
    );
    assert_eq!(
        report.confirmations,
        vec!["Captured VM Service URL: http://127.0.0.1:5/x/".to_string()]
    );
    assert!(matches!(report.event, Some(AppEvent::FlutterOutput)));
    match report.echo {
        Some(Echo::Cleaned(text)) => assert_eq!(
            text,
            "\u{24D8} A Dart VM Service on Pixel 5 is available at: http://127.0.0.1:5/x/"
        ),
        other => panic!("unexpected echo {:?}", other),
    }
    assert_eq!(*info.vm_service_url(), Some("http://127.0.0.1:5/x/".to_string()));
    assert_eq!(*info.android_log_pid(), Some("42".to_string()));
}

#[test]
fn scanner_of_either_stream_records_the_facts() {
    let stdout_scanner = OutputScanner::new().unwrap();
    let stderr_scanner = OutputScanner::new().unwrap();
    let mut info = DebugInfo::default();
    let report = stderr_scanner.scan_line(
        "A Dart VM Service on X is available at: http://127.0.0.1:1/t/\n",
        true,
        &mut info,
    );
    assert_eq!(
        report.confirmations,
        vec!["Captured VM Service URL: http://127.0.0.1:1/t/".to_string()]
    );
    assert!(matches!(report.event, Some(AppEvent::FlutterOutput)));
    assert_eq!(*info.vm_service_url(), Some("http://127.0.0.1:1/t/".to_string()));
    stdout_scanner.scan_line("Launching lib/main.dart on Pixel 5 in debug mode...\n", true, &mut info);
    assert_eq!(*info.vm_service_url(), Some("http://127.0.0.1:1/t/".to_string()));
    assert_eq!(*info.device_info(), Some("Pixel 5".to_string()));
}

#[test]
fn raw_echo_keeps_the_line_as_read() {
    let scanner = OutputScanner::new().unwrap();
    let mut info = DebugInfo::default();
    let report =
        scanner.scan_line("  I/flutter (42): hi\n", false, &mut info);
    match report.echo {
        Some(Echo::Raw(text)) => assert_eq!(text, "  I/flutter (42): hi\n"),
        other => panic!("unexpected echo {:?}", other),
    }
    assert_eq!(*info.android_log_pid(), None);
}

#[test]
fn last_line_without_terminator_is_still_scanned() {
    let scanner = OutputScanner::new().unwrap();
    let mut info = DebugInfo::default();
    let report = scanner.scan_line("flutter: bye", true, &mut info);
    match report.echo {
        Some(Echo::Cleaned(text)) => assert_eq!(text, "bye"),
        other => panic!("unexpected echo {:?}", other),
    }
}
