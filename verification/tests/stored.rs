use clipkeeper::{deserialize, serialize, WindowsClipboardFormat, WindowsClipboardSnapshot};
use serde_json::{Number, Value};

fn to_document(snapshot: &WindowsClipboardSnapshot) -> String {
    let mut formats = Vec::new();
    for format in &snapshot.formats {
        let mut object = serde_json::Map::new();
        object.insert("format_id".to_string(), Value::Number(Number::from(format.format_id)));
        let name = match &format.format_name {
            Some(name) => Value::String(name.clone()),
            None => Value::Null,
        };
        object.insert("format_name".to_string(), name);
        object.insert("data".to_string(), Value::String(serialize(&format.data)));
        formats.push(Value::Object(object));
    }
    let mut document = serde_json::Map::new();
    document.insert("formats".to_string(), Value::Array(formats));
    serde_json::to_string_pretty(&Value::Object(document)).unwrap()
}

fn from_document(text: &str) -> WindowsClipboardSnapshot {
    let document: Value = serde_json::from_str(text).unwrap();
    let mut formats = Vec::new();
    for entry in document.get("formats").unwrap().as_array().unwrap() {
        let object = entry.as_object().unwrap();
        assert_eq!(object.len(), 3);
        formats.push(WindowsClipboardFormat {
            format_id: object.get("format_id").unwrap().as_u64().unwrap() as u32,
            format_name: object.get("format_name").unwrap().as_str().map(|s| s.to_string()),
            data: deserialize(object.get("data").unwrap().as_str().unwrap()).unwrap(),
        });
    }
    WindowsClipboardSnapshot { formats }
}

#[test]
fn stored_document_gives_the_snapshot_back() {
    let snapshot = WindowsClipboardSnapshot {
        formats: vec![
            WindowsClipboardFormat { format_id: 1, format_name: None, data: b"hello".to_vec() },
            WindowsClipboardFormat {
                format_id: 0xC00A,
                format_name: Some("HTML Format".to_string()),
                data: (0..=255u8).collect(),
            },
            WindowsClipboardFormat { format_id: 2, format_name: None, data: Vec::new() },
        ],
    };
    let text = to_document(&snapshot);
    assert!(text.contains("\"data\": \"aGVsbG8=\""));
    assert_eq!(from_document(&text), snapshot);
}

#[test]
fn stored_document_of_an_empty_snapshot_gives_it_back() {
    let snapshot = WindowsClipboardSnapshot { formats: Vec::new() };
    assert_eq!(from_document(&to_document(&snapshot)), snapshot);
}
