use deskd::json::JsonValue;
use deskd::protocol::{ProtocolError, Request, Response};
use deskd::session::{decode_line, is_blank};

fn all_requests() -> Vec<Request> {
    vec![
        Request::Type { text: "héllo ✓".to_string() },
        Request::TypeSecure { text: "secret".to_string() },
        Request::Click { x: -5, y: 7 },
        Request::Focus { element_id: "/a/b".to_string() },
        Request::ListDesktops,
        Request::ClipboardGet,
        Request::ClipboardSet { content: "c".to_string() },
        Request::ClipboardHistory { limit: Some(3) },
        Request::ClipboardHistory { limit: None },
        Request::GetTaskHistory { limit: Some(usize::MAX) },
        Request::FindElement { name: Some("OK".to_string()), role: None },
        Request::ClickElement { name: "OK".to_string(), button: Some("right".to_string()) },
        Request::DoubleClickElement { name: "n".to_string() },
        Request::TypeIntoElement { name: "n".to_string(), text: "t".to_string(), secure: Some(true) },
        Request::FocusElement { name: "n".to_string() },
        Request::GetFocusedElement,
        Request::KeyPress { key: "Enter".to_string() },
        Request::KeyCombo { combo: "Ctrl+C".to_string() },
        Request::KeySequence { keys: vec!["a".to_string(), "Tab".to_string()] },
        Request::ClickAt { x: i32::MIN, y: i32::MAX, button: None },
        Request::Drag { from_x: 1, from_y: 2, to_x: 3, to_y: 4 },
        Request::Screenshot { region: Some("window".to_string()), include_cursor: Some(false) },
        Request::DetectCompositor,
        Request::GetCapabilities,
    ]
}

#[test]
fn codec_round_trip_every_variant() {
    for r in all_requests() {
        let v = r.to_json();
        let back = Request::from_json(&v).unwrap();
        assert_eq!(back, r);
    }
}

#[test]
fn encoded_shape_is_type_then_data() {
    let v = Request::Click { x: 1, y: 2 }.to_json();
    match v {
        JsonValue::Object(fs) => {
            assert_eq!(fs.len(), 2);
            assert_eq!(fs[0], ("type".to_string(), JsonValue::Str("Click".to_string())));
            assert_eq!(fs[1].0, "data");
            assert_eq!(
                fs[1].1,
                JsonValue::Object(vec![
                    ("x".to_string(), JsonValue::Int(1)),
                    ("y".to_string(), JsonValue::Int(2)),
                ])
            );
        }
        _ => panic!("not an object"),
    }
    match Request::ListDesktops.to_json() {
        JsonValue::Object(fs) => assert_eq!(fs.len(), 1),
        _ => panic!("not an object"),
    }
}

fn obj(entries: Vec<(&str, JsonValue)>) -> JsonValue {
    JsonValue::Object(entries.into_iter().map(|(k, v)| (k.to_string(), v)).collect())
}

#[test]
fn decode_accepts_reordered_and_missing_optionals() {
    let v = obj(vec![
        ("data", obj(vec![("extra", JsonValue::Bool(true)), ("name", JsonValue::Str("OK".to_string()))])),
        ("type", JsonValue::Str("ClickElement".to_string())),
    ]);
    assert_eq!(
        Request::from_json(&v).unwrap(),
        Request::ClickElement { name: "OK".to_string(), button: None }
    );
}

#[test]
fn decode_errors() {
    assert_eq!(Request::from_json(&JsonValue::Null), Err(ProtocolError::NotAnObject));
    assert_eq!(Request::from_json(&obj(vec![])), Err(ProtocolError::MissingTag));
    assert_eq!(
        Request::from_json(&obj(vec![("type", JsonValue::Int(3))])),
        Err(ProtocolError::MissingTag)
    );
    assert_eq!(
        Request::from_json(&obj(vec![("type", JsonValue::Str("Launch".to_string()))])),
        Err(ProtocolError::UnknownTag)
    );
    assert_eq!(
        Request::from_json(&obj(vec![("type", JsonValue::Str("Click".to_string()))])),
        Err(ProtocolError::InvalidData)
    );
    let too_big = obj(vec![
        ("type", JsonValue::Str("Click".to_string())),
        ("data", obj(vec![("x", JsonValue::Int(1 << 40)), ("y", JsonValue::Int(0))])),
    ]);
    assert_eq!(Request::from_json(&too_big), Err(ProtocolError::InvalidData));
}

#[test]
fn malformed_line_then_valid_request() {
    let parse_error = serde_json::from_str::<serde_json::Value>("{not json").unwrap_err().to_string();
    match decode_line(Err(parse_error.clone())) {
        Err(Response::Error { error }) => assert_eq!(error, format!("Invalid request: {}", parse_error)),
        other => panic!("unexpected {:?}", other),
    }
    let ok = decode_line(Ok(Request::ListDesktops.to_json()));
    assert_eq!(ok.unwrap(), Request::ListDesktops);
}

#[test]
fn unknown_request_gets_error_text() {
    match decode_line(Ok(obj(vec![("type", JsonValue::Str("Nope".to_string()))]))) {
        Err(Response::Error { error }) => assert_eq!(error, "Invalid request: unknown request type"),
        other => panic!("unexpected {:?}", other),
    }
}

#[test]
fn blank_lines_are_skipped() {
    assert!(is_blank(""));
    assert!(is_blank("  \t\r\n\u{2003}"));
    assert!(!is_blank(" {} "));
}

#[test]
fn response_encoding() {
    let v = Response::Success { message: "done".to_string() }.to_json();
    assert_eq!(
        v,
        obj(vec![
            ("type", JsonValue::Str("Success".to_string())),
            ("data", obj(vec![("message", JsonValue::Str("done".to_string()))])),
        ])
    );
    let v = Response::Error { error: "bad".to_string() }.to_json();
    assert_eq!(
        v,
        obj(vec![
            ("type", JsonValue::Str("Error".to_string())),
            ("data", obj(vec![("error", JsonValue::Str("bad".to_string()))])),
        ])
    );
    let v = Response::Data { data: JsonValue::Null }.to_json();
    assert_eq!(v, obj(vec![("type", JsonValue::Str("Data".to_string())), ("data", JsonValue::Null)]));
}
