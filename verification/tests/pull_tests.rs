use chat_gateway::pull::{
    derive_percent, line_event, LineBuffer, PullEvent, PullInput, PullPump,
};

#[test]
fn percent_is_zero_when_total_unknown() {
    assert_eq!(derive_percent(0, 0), 0);
    assert_eq!(derive_percent(5, 0), 0);
}

#[test]
fn percent_is_exactly_100_when_finished() {
    assert_eq!(derive_percent(100, 100), 100);
    assert_eq!(derive_percent(7, 7), 100);
}

#[test]
fn percent_clamps_when_completed_overshoots() {
    assert_eq!(derive_percent(150, 100), 100);
    assert_eq!(derive_percent(u64::MAX, 1), 100);
}

#[test]
fn percent_is_the_scaled_quotient_within_the_total() {
    assert_eq!(derive_percent(50, 200), 25);
    assert_eq!(derive_percent(1, 3), 33);
    assert_eq!(derive_percent(0, 10), 0);
}

#[test]
fn line_buffer_splits_on_newlines() {
    let mut buf = LineBuffer::new();
    let lines = buf.push_chunk(b"one\ntwo\nthr");
    assert_eq!(lines, vec![b"one".to_vec(), b"two".to_vec()]);
    let lines = buf.push_chunk(b"ee\n");
    assert_eq!(lines, vec![b"three".to_vec()]);
}

#[test]
fn record_spanning_reads_is_reassembled() {
    let mut pump = PullPump::new();
    let first = pump.step(PullInput::Data(b"{\"status\":\"a".to_vec()));
    assert!(first.is_empty());
    let second = pump.step(PullInput::Data(b"bc\"}\n".to_vec()));
    assert_eq!(second.len(), 1);
    match &second[0] {
        PullEvent::Progress(p) => {
            assert_eq!(p.status, "abc");
            assert_eq!(p.total, 0);
            assert_eq!(p.completed, 0);
            assert_eq!(p.percent, 0);
        }
        _ => panic!("expected a structured progress event"),
    }
}

#[test]
fn manifest_then_success_then_clean_close() {
    let mut pump = PullPump::new();
    let body = b"{\"status\":\"pulling manifest\"}\n{\"status\":\"success\",\"total\":100,\"completed\":100}\n";
    let events = pump.step(PullInput::Data(body.to_vec()));
    assert_eq!(events.len(), 2);
    match &events[0] {
        PullEvent::Progress(p) => {
            assert_eq!(p.status, "pulling manifest");
            assert_eq!(p.percent, 0);
        }
        _ => panic!("expected the first progress event"),
    }
    match &events[1] {
        PullEvent::Progress(p) => {
            assert_eq!(p.status, "success");
            assert_eq!(p.total, 100);
            assert_eq!(p.completed, 100);
            assert_eq!(p.percent, 100);
        }
        _ => panic!("expected the second progress event"),
    }
    let done = pump.step(PullInput::Closed);
    assert_eq!(done.len(), 1);
    assert!(matches!(done[0], PullEvent::End));
}

#[test]
fn malformed_line_is_forwarded_as_raw_text() {
    let mut pump = PullPump::new();
    let events = pump.step(PullInput::Data(b"not json at all\n".to_vec()));
    assert_eq!(events.len(), 1);
    match &events[0] {
        PullEvent::Raw(text) => assert_eq!(text, "not json at all"),
        _ => panic!("expected the raw line"),
    }
}

#[test]
fn invalid_bytes_are_decoded_lossily_not_dropped() {
    let mut pump = PullPump::new();
    let events = pump.step(PullInput::Data(vec![0xff, b'x', b'\n']));
    assert_eq!(events.len(), 1);
    match &events[0] {
        PullEvent::Raw(text) => assert_eq!(text, "\u{FFFD}x"),
        _ => panic!("expected the raw line"),
    }
}

#[test]
fn blank_lines_are_skipped() {
    let mut pump = PullPump::new();
    let events = pump.step(PullInput::Data(b"\n  \n\r\n".to_vec()));
    assert!(events.is_empty());
}

#[test]
fn read_failure_ends_with_one_error() {
    let mut pump = PullPump::new();
    let _ = pump.step(PullInput::Data(b"{\"status\":\"x\"}\n".to_vec()));
    let events = pump.step(PullInput::Failed("connection reset".to_string()));
    assert_eq!(events.len(), 1);
    match &events[0] {
        PullEvent::Error(m) => assert_eq!(m, "connection reset"),
        _ => panic!("expected the error event"),
    }
}

#[test]
fn carriage_returns_are_trimmed_from_lines() {
    let trimmed = line_event(&b"  {\"status\":\"s\"}\r".to_vec());
    match trimmed {
        Some(PullEvent::Progress(p)) => assert_eq!(p.status, "s"),
        _ => panic!("expected the record despite surrounding whitespace"),
    }
}
