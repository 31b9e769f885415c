use waydraw::line::{encode_line, greeting_complete, LineReader, LineStep};

fn read_line(reads: &[(Option<usize>, u8)]) -> Option<String> {
    let mut reader = LineReader::new();
    for (read, byte) in reads {
        match reader.step(*read, *byte) {
            LineStep::Pending(next) => reader = next,
            LineStep::Ended => return None,
            LineStep::Line(text) => return Some(text),
        }
    }
    panic!("the reads did not finish a line")
}

fn reads_of(bytes: &[u8]) -> Vec<(Option<usize>, u8)> {
    bytes.iter().map(|b| (Some(1), *b)).collect()
}

#[test]
fn encode_line_appends_newline() {
    assert_eq!(encode_line("Open"), b"Open\n".to_vec());
    assert_eq!(encode_line(""), b"\n".to_vec());
}

#[test]
fn line_reader_reads_written_line() {
    for text in ["hello", "", "héllo wörld ✓"] {
        assert_eq!(read_line(&reads_of(&encode_line(text))), Some(text.to_string()));
    }
}

#[test]
fn line_reader_stops_at_first_newline() {
    assert_eq!(read_line(&reads_of(b"ab\ncd\n")), Some("ab".to_string()));
}

#[test]
fn line_reader_ends_on_finished_stream() {
    assert_eq!(read_line(&[(Some(1), b'a'), (None, 0)]), None);
    assert_eq!(read_line(&[(Some(1), b'a'), (Some(0), b'\n')]), None);
}

#[test]
fn line_reader_replaces_invalid_utf8() {
    assert_eq!(read_line(&reads_of(&[b'a', 0xff, b'b', b'\n'])), Some("a\u{FFFD}b".to_string()));
}

#[test]
fn greeting_needs_four_bytes() {
    assert!(!greeting_complete(&String::new()));
    assert!(!greeting_complete(&"Ope".to_string()));
    assert!(greeting_complete(&"Open".to_string()));
    assert!(greeting_complete(&"éé".to_string()));
}
