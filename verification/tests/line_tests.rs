use sslflash::line::{LineChannel, LineStep, ReadEvent};

#[test]
fn single_newline_returns_preceding_bytes_verbatim() {
    // exactly one newline: the line is every byte before it, \r included
    let mut c = LineChannel::new();
    let bytes = vec![0x41u8, 0x0D, 0x0A];
    let line = c.read_line_from(&bytes);
    assert_eq!(line, Some(vec![0x41u8, 0x0D]));
}

#[test]
fn newline_alone_gives_empty_line() {
    let mut c = LineChannel::new();
    let bytes = vec![0x0Au8];
    let line = c.read_line_from(&bytes);
    assert_eq!(line, Some(Vec::new()));
}

#[test]
fn timeout_with_zero_bytes_gives_no_line() {
    let mut c = LineChannel::new();
    let step = c.on_event(ReadEvent::Timeout);
    assert!(matches!(step, LineStep::NoLine));
}

#[test]
fn bytes_accumulate_across_calls() {
    let mut c = LineChannel::new();
    assert!(matches!(c.on_event(ReadEvent::Byte(b'S')), LineStep::Pending));
    assert!(matches!(c.on_event(ReadEvent::Timeout), LineStep::NoLine));
    assert!(matches!(c.on_event(ReadEvent::Byte(b'I')), LineStep::Pending));
    match c.on_event(ReadEvent::Byte(b'\n')) {
        LineStep::Line(l) => assert_eq!(l, vec![b'S', b'I']),
        _ => panic!("expected a completed line"),
    }
}

#[test]
fn no_newline_returns_none_and_keeps_bytes() {
    let mut c = LineChannel::new();
    let line = c.read_line_from(&vec![b'a', b'b']);
    assert_eq!(line, None);
    // the kept bytes head the next completed line
    let line = c.read_line_from(&vec![b'c', b'\n']);
    assert_eq!(line, Some(vec![b'a', b'b', b'c']));
}

#[test]
fn read_failure_is_fatal() {
    let mut c = LineChannel::new();
    assert!(matches!(c.on_event(ReadEvent::Failure), LineStep::Failed));
}

#[test]
fn only_first_line_is_returned() {
    let mut c = LineChannel::new();
    let line = c.read_line_from(&vec![b'x', b'\n', b'y', b'\n']);
    assert_eq!(line, Some(vec![b'x']));
}
