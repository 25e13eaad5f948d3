use flitter::events::AppEvent;
use flitter::keyboard::key_event;
use flitter::watcher::{is_watched_extension, watched_change, Debouncer, DEBOUNCE_WINDOW_MS};

#[test]
fn only_the_first_path_with_the_watched_extension_counts() {
    assert_eq!(
        watched_change(&vec!["/p/lib/main.dart".to_string(), "/p/lib/b.txt".to_string()]),
        Some("/p/lib/main.dart".to_string())
    );
    assert_eq!(
        watched_change(&vec!["/p/lib/b.txt".to_string(), "/p/lib/main.dart".to_string()]),
        None
    );
    assert_eq!(watched_change(&Vec::new()), None);
}

#[test]
fn extension_is_that_of_the_file_name() {
    assert_eq!(watched_change(&vec!["/p/lib/.dart".to_string()]), None);
    assert_eq!(watched_change(&vec!["/p/lib.dart/readme".to_string()]), None);
    assert_eq!(watched_change(&vec!["/p/lib/a.DART".to_string()]), None);
    assert_eq!(watched_change(&vec!["/p/lib/a.dart~".to_string()]), None);
    assert_eq!(
        watched_change(&vec!["/p/lib/a.g.dart".to_string()]),
        Some("/p/lib/a.g.dart".to_string())
    );
}

#[test]
fn watched_extension_is_dart() {
    assert!(is_watched_extension(&Some("dart".to_string())));
    assert!(!is_watched_extension(&Some("rs".to_string())));
    assert!(!is_watched_extension(&Some("".to_string())));
    assert!(!is_watched_extension(&None));
}

fn relayed(debouncer: &mut Debouncer, times: &[u64]) -> Vec<u64> {
    let mut passed = Vec::new();
    for &now in times {
        if let Some(AppEvent::FileChanged(path)) = debouncer.relay(format!("f{}", now), now) {
            assert_eq!(path, format!("f{}", now));
            passed.push(now);
        }
    }
    passed
}

#[test]
fn burst_inside_the_window_collapses_to_one_event() {
    let mut debouncer = Debouncer::new(DEBOUNCE_WINDOW_MS);
    assert_eq!(relayed(&mut debouncer, &[1000, 1001, 1050, 1200, 1299]), vec![1000]);
}

#[test]
fn spaced_changes_each_produce_an_event() {
    let mut debouncer = Debouncer::new(DEBOUNCE_WINDOW_MS);
    assert_eq!(relayed(&mut debouncer, &[300, 600, 1000, 1300]), vec![300, 600, 1000, 1300]);
}

#[test]
fn window_is_measured_from_the_last_change_let_through() {
    let mut debouncer = Debouncer::new(DEBOUNCE_WINDOW_MS);
    assert_eq!(relayed(&mut debouncer, &[400, 600, 699, 700, 999, 1000]), vec![400, 700, 1000]);
}

#[test]
fn first_change_passes_however_soon_it_comes() {
    let mut debouncer = Debouncer::new(DEBOUNCE_WINDOW_MS);
    assert_eq!(relayed(&mut debouncer, &[100, 150, 399, 400]), vec![100, 400]);
    let mut debouncer = Debouncer::new(DEBOUNCE_WINDOW_MS);
    assert_eq!(relayed(&mut debouncer, &[0, 1, 299]), vec![0]);
}

#[test]
fn clock_reading_before_the_last_change_counts_as_no_time() {
    let mut debouncer = Debouncer::new(DEBOUNCE_WINDOW_MS);
    assert!(debouncer.accept(1000));
    assert!(!debouncer.accept(10));
    assert!(debouncer.accept(1300));
}

#[test]
fn keys_map_to_commands() {
    assert!(matches!(key_event(b'r'), Some(AppEvent::HotReload)));
    assert!(matches!(key_event(b'R'), Some(AppEvent::HotRestart)));
    assert!(matches!(key_event(b'i'), Some(AppEvent::ShowInfo)));
    assert!(matches!(key_event(b'q'), Some(AppEvent::Quit)));
    assert!(matches!(key_event(3), Some(AppEvent::Quit)));
}

#[test]
fn other_keys_are_ignored() {
    let mut key: u16 = 0;
    while key < 256 {
        let byte = key as u8;
        if ![b'r', b'R', b'i', b'q', 3].contains(&byte) {
            assert!(key_event(byte).is_none(), "key {}", byte);
        }
        key += 1;
    }
}
