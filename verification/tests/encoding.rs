use clipkeeper::{
    deserialize, get_format_name, get_windows_clipboard_snapshot, register_format,
    restore_windows_clipboard_snapshot, serialize, CaptureEvent, CaptureState, ClipboardError,
    OpenOutcome, RestoreAction, RestoreEvent, RestoreState, WindowsClipboardFormat,
    WindowsClipboardSnapshot, CUSTOM_FORMAT_THRESHOLD, FORMAT_NAME_CAPACITY,
};

#[test]
fn constants_have_their_documented_values() {
    assert_eq!(CUSTOM_FORMAT_THRESHOLD, 0xC000);
    assert_eq!(FORMAT_NAME_CAPACITY, 256);
}

#[test]
fn serialize_gives_padded_standard_base64() {
    assert_eq!(serialize(&Vec::new()), "");
    assert_eq!(serialize(&b"h".to_vec()), "aA==");
    assert_eq!(serialize(&b"he".to_vec()), "aGU=");
    assert_eq!(serialize(&b"hello".to_vec()), "aGVsbG8=");
    assert_eq!(serialize(&vec![0xFB, 0xFF, 0xBE]), "+/++");
}

#[test]
fn deserialize_reads_padded_standard_base64() {
    assert_eq!(deserialize(""), Ok(Vec::new()));
    assert_eq!(deserialize("aGVsbG8="), Ok(b"hello".to_vec()));
    assert_eq!(deserialize("+/++"), Ok(vec![0xFB, 0xFF, 0xBE]));
}

#[test]
fn deserialize_rejects_text_that_is_not_base64() {
    assert_eq!(deserialize("aGVsbG8"), Err(ClipboardError::InvalidPayloadText));
    assert_eq!(deserialize("a*b="), Err(ClipboardError::InvalidPayloadText));
    assert_eq!(deserialize("-_--"), Err(ClipboardError::InvalidPayloadText));
    assert_eq!(deserialize("aGVsbG8= "), Err(ClipboardError::InvalidPayloadText));
}

#[test]
fn payload_text_round_trips_every_byte_value() {
    let all: Vec<u8> = (0..=255u8).collect();
    assert_eq!(deserialize(&serialize(&all)), Ok(all));
    let empty: Vec<u8> = Vec::new();
    assert_eq!(deserialize(&serialize(&empty)), Ok(empty));
    for length in 0..20usize {
        let data: Vec<u8> = (0..length).map(|i| (i * 37 + 11) as u8).collect();
        assert_eq!(deserialize(&serialize(&data)), Ok(data));
    }
}

#[test]
fn format_name_is_absent_for_a_predefined_identifier() {
    let units: Vec<u16> = "Text".encode_utf16().collect();
    assert_eq!(get_format_name(1, &units), None);
    assert_eq!(get_format_name(0xBFFF, &units), None);
}

#[test]
fn format_name_is_decoded_for_a_registered_identifier() {
    let units: Vec<u16> = "Rich Text Format".encode_utf16().collect();
    assert_eq!(get_format_name(0xC000, &units), Some("Rich Text Format".to_string()));
    assert_eq!(get_format_name(0xFFFF, &units), Some("Rich Text Format".to_string()));
    assert_eq!(get_format_name(0xC000, &Vec::new()), None);
}

#[test]
fn format_name_replaces_an_unpaired_surrogate() {
    let units: Vec<u16> = vec![0x0041, 0xD800, 0x0042];
    assert_eq!(get_format_name(0xC005, &units), Some("A\u{FFFD}B".to_string()));
}

#[test]
fn registered_name_is_a_terminated_wide_string() {
    assert_eq!(register_format(""), vec![0u16]);
    assert_eq!(register_format("Ab"), vec![0x41u16, 0x62, 0]);
    assert_eq!(register_format("\u{1F600}"), vec![0xD83Du16, 0xDE00, 0]);
}

#[test]
fn text_survives_capture_storage_and_restore() {
    let answers = vec![
        CaptureEvent::Opened(OpenOutcome::Granted),
        CaptureEvent::NextFormat(1),
        CaptureEvent::DataHandle(true),
        CaptureEvent::ByteLength(5),
        CaptureEvent::Copied(Some(b"hello".to_vec())),
        CaptureEvent::NextFormat(0),
        CaptureEvent::Closed,
    ];
    let mut capture = CaptureState::new();
    for event in answers.clone() {
        capture = get_windows_clipboard_snapshot(capture, event);
    }
    let first = capture.outcome().unwrap().unwrap();
    assert_eq!(first.formats.len(), 1);
    assert_eq!(first.formats[0].format_id, 1);
    assert_eq!(first.formats[0].format_name, None);
    assert_eq!(first.formats[0].data, vec![b'h', b'e', b'l', b'l', b'o']);

    let stored = serialize(&first.formats[0].data);
    assert_eq!(stored, "aGVsbG8=");
    let loaded = WindowsClipboardSnapshot {
        formats: vec![WindowsClipboardFormat {
            format_id: first.formats[0].format_id,
            format_name: first.formats[0].format_name.clone(),
            data: deserialize(&stored).unwrap(),
        }],
    };
    assert_eq!(loaded, first);

    let mut restore = RestoreState::new();
    let mut set = Vec::new();
    for event in [
        RestoreEvent::Opened(OpenOutcome::Granted),
        RestoreEvent::Cleared(true),
        RestoreEvent::Allocated(true),
        RestoreEvent::Filled(true),
        RestoreEvent::DataSet(true),
        RestoreEvent::Closed,
    ] {
        if let RestoreAction::SetData { format_id } = restore.pending_action() {
            set.push(format_id);
        }
        restore = restore_windows_clipboard_snapshot(&loaded, restore, event);
    }
    assert_eq!(set, vec![1]);
    assert_eq!(restore.outcome(), Some(Ok(())));

    let mut again = CaptureState::new();
    for event in answers {
        again = get_windows_clipboard_snapshot(again, event);
    }
    assert_eq!(again.outcome(), Some(Ok(first)));
}
