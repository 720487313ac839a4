use clipkeeper::{
    get_windows_clipboard_snapshot, CaptureAction, CaptureEvent, CapturePhase, CaptureState,
    CaptureWarning, ClipboardError, OpenOutcome, ReadFailure, WindowsClipboardFormat,
    WindowsClipboardSnapshot,
};

fn run_capture(events: Vec<CaptureEvent>) -> CaptureState {
    let mut state = CaptureState::new();
    for event in events {
        state = get_windows_clipboard_snapshot(state, event);
    }
    state
}

fn read_standard(format_id: u32, data: &[u8]) -> Vec<CaptureEvent> {
    let mut events = vec![CaptureEvent::NextFormat(format_id), CaptureEvent::DataHandle(true)];
    events.push(CaptureEvent::ByteLength(data.len()));
    if !data.is_empty() {
        events.push(CaptureEvent::Copied(Some(data.to_vec())));
    }
    events
}

fn utf16(text: &str) -> Vec<u16> {
    text.encode_utf16().collect()
}

#[test]
fn capture_starts_by_opening() {
    let state = CaptureState::new();
    assert_eq!(state.phase, CapturePhase::Opening);
    assert_eq!(state.pending_action(), CaptureAction::Open);
    assert!(state.formats.is_empty());
    assert!(state.warnings.is_empty());
    assert_eq!(state.outcome(), None);
}

#[test]
fn capture_of_text_requests_each_step_in_turn() {
    let mut state = CaptureState::new();
    let script = vec![
        (CaptureEvent::Opened(OpenOutcome::Granted), CaptureAction::NextFormat { after: 0 }),
        (CaptureEvent::NextFormat(1), CaptureAction::GetData { format_id: 1 }),
        (CaptureEvent::DataHandle(true), CaptureAction::QuerySize { format_id: 1 }),
        (CaptureEvent::ByteLength(5), CaptureAction::LockAndCopy { format_id: 1 }),
        (CaptureEvent::Copied(Some(b"hello".to_vec())), CaptureAction::NextFormat { after: 1 }),
        (CaptureEvent::NextFormat(0), CaptureAction::Close),
        (CaptureEvent::Closed, CaptureAction::Stop),
    ];
    for (event, expected) in script {
        state = get_windows_clipboard_snapshot(state, event);
        assert_eq!(state.pending_action(), expected);
    }
    let snapshot = state.outcome().unwrap().unwrap();
    assert_eq!(
        snapshot,
        WindowsClipboardSnapshot {
            formats: vec![WindowsClipboardFormat {
                format_id: 1,
                format_name: None,
                data: vec![b'h', b'e', b'l', b'l', b'o'],
            }],
        }
    );
}

#[test]
fn capture_resolves_the_name_of_a_registered_format() {
    let mut events = vec![CaptureEvent::Opened(OpenOutcome::Granted)];
    events.push(CaptureEvent::NextFormat(0xC00A));
    events.push(CaptureEvent::DataHandle(true));
    events.push(CaptureEvent::ByteLength(3));
    events.push(CaptureEvent::Copied(Some(vec![1, 2, 3])));
    let state = run_capture(events);
    assert_eq!(
        state.pending_action(),
        CaptureAction::LookupName { format_id: 0xC00A, capacity: 256 }
    );
    assert!(state.formats.is_empty());
    let state = get_windows_clipboard_snapshot(state, CaptureEvent::Name(utf16("HTML Format")));
    assert_eq!(state.pending_action(), CaptureAction::NextFormat { after: 0xC00A });
    assert_eq!(
        state.formats,
        vec![WindowsClipboardFormat {
            format_id: 0xC00A,
            format_name: Some("HTML Format".to_string()),
            data: vec![1, 2, 3],
        }]
    );
    assert!(state.pending.is_empty());
}

#[test]
fn capture_keeps_a_registered_format_whose_name_is_not_found() {
    let mut events = vec![CaptureEvent::Opened(OpenOutcome::Granted)];
    events.push(CaptureEvent::NextFormat(0xC000));
    events.push(CaptureEvent::DataHandle(true));
    events.push(CaptureEvent::ByteLength(1));
    events.push(CaptureEvent::Copied(Some(vec![9])));
    events.push(CaptureEvent::Name(Vec::new()));
    events.push(CaptureEvent::NextFormat(0));
    events.push(CaptureEvent::Closed);
    let snapshot = run_capture(events).outcome().unwrap().unwrap();
    assert_eq!(
        snapshot.formats,
        vec![WindowsClipboardFormat { format_id: 0xC000, format_name: None, data: vec![9] }]
    );
}

#[test]
fn capture_never_looks_up_the_name_of_a_predefined_format() {
    let mut events = vec![CaptureEvent::Opened(OpenOutcome::Granted)];
    events.extend(read_standard(0xBFFF, &[7]));
    let state = run_capture(events);
    assert_eq!(state.pending_action(), CaptureAction::NextFormat { after: 0xBFFF });
    assert_eq!(state.formats.len(), 1);
    assert_eq!(state.formats[0].format_name, None);
}

#[test]
fn capture_leaves_out_one_unreadable_format_of_three() {
    let mut events = vec![CaptureEvent::Opened(OpenOutcome::Granted)];
    events.extend(read_standard(1, b"text"));
    events.push(CaptureEvent::NextFormat(2));
    events.push(CaptureEvent::DataHandle(false));
    events.extend(read_standard(13, &[0x61, 0x00]));
    events.push(CaptureEvent::NextFormat(0));
    events.push(CaptureEvent::Closed);
    let state = run_capture(events);
    assert_eq!(
        state.warnings,
        vec![CaptureWarning { format_id: 2, reason: ReadFailure::HandleUnavailable }]
    );
    let snapshot = state.outcome().unwrap().unwrap();
    assert_eq!(snapshot.formats.len(), 2);
    assert_eq!(snapshot.formats[0].format_id, 1);
    assert_eq!(snapshot.formats[0].data, b"text".to_vec());
    assert_eq!(snapshot.formats[1].format_id, 13);
    assert_eq!(snapshot.formats[1].data, vec![0x61, 0x00]);
}

#[test]
fn capture_leaves_out_a_format_that_cannot_be_locked() {
    let mut events = vec![CaptureEvent::Opened(OpenOutcome::Granted)];
    events.push(CaptureEvent::NextFormat(8));
    events.push(CaptureEvent::DataHandle(true));
    events.push(CaptureEvent::ByteLength(40));
    events.push(CaptureEvent::Copied(None));
    let state = run_capture(events);
    assert_eq!(state.pending_action(), CaptureAction::NextFormat { after: 8 });
    assert!(state.formats.is_empty());
    assert_eq!(
        state.warnings,
        vec![CaptureWarning { format_id: 8, reason: ReadFailure::LockFailed }]
    );
    let state = run_capture_from(state, vec![CaptureEvent::NextFormat(0), CaptureEvent::Closed]);
    assert_eq!(state.outcome(), Some(Ok(WindowsClipboardSnapshot { formats: Vec::new() })));
}

fn run_capture_from(mut state: CaptureState, events: Vec<CaptureEvent>) -> CaptureState {
    for event in events {
        state = get_windows_clipboard_snapshot(state, event);
    }
    state
}

#[test]
fn capture_keeps_an_empty_payload_without_locking() {
    let mut events = vec![CaptureEvent::Opened(OpenOutcome::Granted)];
    events.push(CaptureEvent::NextFormat(2));
    events.push(CaptureEvent::DataHandle(true));
    events.push(CaptureEvent::ByteLength(0));
    let state = run_capture(events);
    assert_eq!(state.pending_action(), CaptureAction::NextFormat { after: 2 });
    assert_eq!(
        state.formats,
        vec![WindowsClipboardFormat { format_id: 2, format_name: None, data: Vec::new() }]
    );
    assert!(state.warnings.is_empty());
}

#[test]
fn capture_keeps_an_empty_payload_of_a_registered_format() {
    let mut events = vec![CaptureEvent::Opened(OpenOutcome::Granted)];
    events.push(CaptureEvent::NextFormat(0xC123));
    events.push(CaptureEvent::DataHandle(true));
    events.push(CaptureEvent::ByteLength(0));
    events.push(CaptureEvent::Name(utf16("Marker")));
    let state = run_capture(events);
    assert_eq!(
        state.formats,
        vec![WindowsClipboardFormat {
            format_id: 0xC123,
            format_name: Some("Marker".to_string()),
            data: Vec::new(),
        }]
    );
}

#[test]
fn capture_fails_when_the_clipboard_is_busy() {
    let state = run_capture(vec![CaptureEvent::Opened(OpenOutcome::Refused)]);
    assert_eq!(state.pending_action(), CaptureAction::Stop);
    assert_eq!(state.outcome(), Some(Err(ClipboardError::OpenFailed)));
}

#[test]
fn capture_fails_at_once_on_an_unsupported_host() {
    let state = run_capture(vec![CaptureEvent::Opened(OpenOutcome::Unsupported)]);
    assert_eq!(state.pending_action(), CaptureAction::Stop);
    assert!(state.formats.is_empty());
    assert_eq!(state.outcome(), Some(Err(ClipboardError::UnsupportedPlatform)));
}

#[test]
fn capture_of_an_empty_clipboard_succeeds() {
    let state = run_capture(vec![
        CaptureEvent::Opened(OpenOutcome::Granted),
        CaptureEvent::NextFormat(0),
        CaptureEvent::Closed,
    ]);
    assert_eq!(state.outcome(), Some(Ok(WindowsClipboardSnapshot { formats: Vec::new() })));
}

#[test]
fn capture_has_no_outcome_before_the_clipboard_is_released() {
    let state = run_capture(vec![
        CaptureEvent::Opened(OpenOutcome::Granted),
        CaptureEvent::NextFormat(0),
    ]);
    assert_eq!(state.pending_action(), CaptureAction::Close);
    assert_eq!(state.outcome(), None);
}

#[test]
fn capture_ignores_an_answer_it_did_not_ask_for() {
    let state = run_capture(vec![CaptureEvent::Opened(OpenOutcome::Granted)]);
    let before = state.clone();
    for event in [
        CaptureEvent::Opened(OpenOutcome::Refused),
        CaptureEvent::DataHandle(false),
        CaptureEvent::ByteLength(0),
        CaptureEvent::Copied(Some(vec![1])),
        CaptureEvent::Name(utf16("x")),
        CaptureEvent::Closed,
    ] {
        let state = get_windows_clipboard_snapshot(before.clone(), event);
        assert_eq!(state, before);
    }
    let finished = run_capture_from(before, vec![CaptureEvent::NextFormat(0), CaptureEvent::Closed]);
    let again = get_windows_clipboard_snapshot(finished.clone(), CaptureEvent::NextFormat(5));
    assert_eq!(again, finished);
}

#[test]
fn captured_entries_are_named_exactly_when_registered() {
    let mut events = vec![CaptureEvent::Opened(OpenOutcome::Granted)];
    events.extend(read_standard(1, b"a"));
    events.extend(read_standard(0xC001, b"b"));
    events.push(CaptureEvent::Name(utf16("First")));
    events.extend(read_standard(0xBFFF, b""));
    events.extend(read_standard(0xFFFF, b""));
    events.push(CaptureEvent::Name(utf16("Last")));
    events.push(CaptureEvent::NextFormat(0));
    events.push(CaptureEvent::Closed);
    let snapshot = run_capture(events).outcome().unwrap().unwrap();
    assert_eq!(snapshot.formats.len(), 4);
    for format in &snapshot.formats {
        assert_eq!(format.format_name.is_some(), format.format_id >= 0xC000);
    }
}
