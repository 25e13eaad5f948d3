use flitter::lines::LineSplitter;
use flitter::notice::{header_lines, HEADER_RULE};

fn texts(lines: Vec<Vec<u8>>) -> Vec<String> {
    lines.into_iter().map(|line| String::from_utf8(line).unwrap()).collect()
}

#[test]
fn chunk_with_whole_lines_is_split_at_the_terminators() {
    let mut splitter = LineSplitter::new();
    assert_eq!(texts(splitter.push(b"one\ntwo\n\nthree\n")), vec!["one\n", "two\n", "\n", "three\n"]);
    assert_eq!(splitter.finish(), None);
}

#[test]
fn line_cut_across_chunks_is_put_together() {
    let mut splitter = LineSplitter::new();
    assert!(splitter.push(b"Launching lib/ma").is_empty());
    assert!(splitter.push(b"in.dart on Pix").is_empty());
    assert_eq!(
        texts(splitter.push(b"el 5 in debug mode...\nnext")),
        vec!["Launching lib/main.dart on Pixel 5 in debug mode...\n"]
    );
    assert_eq!(texts(splitter.push(b"\n")), vec!["next\n"]);
    assert_eq!(splitter.finish(), None);
}

#[test]
fn last_line_without_terminator_is_handed_out_at_the_end() {
    let mut splitter = LineSplitter::new();
    assert_eq!(texts(splitter.push(b"first\nlast without newline")), vec!["first\n"]);
    assert_eq!(splitter.finish(), Some(b"last without newline".to_vec()));
    assert_eq!(splitter.finish(), None);
}

#[test]
fn empty_chunks_change_nothing() {
    let mut splitter = LineSplitter::new();
    assert!(splitter.push(b"").is_empty());
    assert!(splitter.push(b"ab").is_empty());
    assert!(splitter.push(b"").is_empty());
    assert_eq!(splitter.finish(), Some(b"ab".to_vec()));
}

#[test]
fn no_byte_is_lost_however_the_stream_is_cut() {
    let stream: &[u8] = b"a\nbb\n\nccc\r\n\xF0\x9F\x94\xA5 fire\nrest";
    let mut cut = 1;
    while cut <= stream.len() {
        let mut splitter = LineSplitter::new();
        let mut seen: Vec<u8> = Vec::new();
        let mut count = 0;
        for chunk in stream.chunks(cut) {
            for line in splitter.push(chunk) {
                assert_eq!(line.last(), Some(&b'\n'));
                assert_eq!(line.iter().filter(|b| **b == b'\n').count(), 1);
                seen.extend_from_slice(&line);
                count += 1;
            }
        }
        assert_eq!(count, 5);
        if let Some(last) = splitter.finish() {
            assert_eq!(last, b"rest");
            seen.extend_from_slice(&last);
        }
        assert_eq!(seen, stream);
        cut += 1;
    }
}

#[test]
fn header_is_a_title_between_two_rules() {
    let lines = header_lines("Debug Information");
    assert_eq!(lines.len(), 3);
    assert_eq!(lines[0], HEADER_RULE);
    assert_eq!(lines[1], "\u{1F4F1} Debug Information");
    assert_eq!(lines[2], HEADER_RULE);
    assert_eq!(HEADER_RULE.chars().count(), 42);
    assert!(HEADER_RULE.chars().all(|c| c == '\u{2501}'));
}
