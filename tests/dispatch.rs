use deskd::clipboard::ClipboardClient;
use deskd::detection::{Probes, SessionEnv, WaylandClient};
use deskd::dispatch::{finish, process_request, success_text, Dispatch, Operation, ScreenshotOptions, ScreenshotRegion};
use deskd::fallback::{ClickButton, InputMethod, Step};
use deskd::json::JsonValue;
use deskd::keys::Key;
use deskd::protocol::{Request, Response};

fn session() -> WaylandClient {
    let env = SessionEnv {
        wayland_display: Some("wayland-0".to_string()),
        display: None,
        xdg_current_desktop: Some("sway".to_string()),
        desktop_session: None,
        swaysock: None,
        hyprland_instance_signature: None,
    };
    let probes = Probes {
        portal: true,
        gnome_dbus: false,
        kde_dbus: false,
        sway_socket: true,
        hyprland_socket: false,
        libei: false,
        wlr_protocols: false,
    };
    WaylandClient::new(&env, &probes)
}

fn dispatch(r: Request, clip: &mut ClipboardClient) -> Dispatch {
    process_request(r, clip, &session(), 42)
}

fn is_error(d: &Dispatch) -> bool {
    matches!(d, Dispatch::Reply(Response::Error { .. }))
}

#[test]
fn secure_typing_never_echoes_text() {
    let mut clip = ClipboardClient::new(5);
    let d = dispatch(Request::TypeSecure { text: "hunter2".to_string() }, &mut clip);
    let op = match d {
        Dispatch::Perform(op) => op,
        _ => panic!("expected an operation"),
    };
    let msg = success_text(&op);
    assert_eq!(msg, "Typed securely");
    assert!(!msg.contains("hunter2"));
    assert!(clip.history().is_empty());
}

#[test]
fn operations_and_messages() {
    let mut clip = ClipboardClient::new(5);
    let d = dispatch(Request::ClickAt { x: -3, y: 40, button: Some("right".to_string()) }, &mut clip);
    match d {
        Dispatch::Perform(op) => {
            assert!(matches!(op, Operation::Click { x: -3, y: 40, button: ClickButton::Right }));
            match finish(&op, Step::Done(InputMethod::Portal), &[InputMethod::Portal]) {
                Response::Success { message } => assert_eq!(message, "Clicked at (-3, 40) with right"),
                other => panic!("unexpected {:?}", other),
            }
        }
        _ => panic!("expected an operation"),
    }
    let d = dispatch(Request::Drag { from_x: 1, from_y: 2, to_x: 30, to_y: -4 }, &mut clip);
    match d {
        Dispatch::Perform(op) => assert_eq!(success_text(&op), "Dragged from (1, 2) to (30, -4)"),
        _ => panic!("expected an operation"),
    }
    let d = dispatch(Request::KeySequence { keys: vec!["a".to_string(), "Tab".to_string()] }, &mut clip);
    match d {
        Dispatch::Perform(Operation::KeySequence { keys }) => {
            assert_eq!(keys, vec![Key::Char('a'), Key::Tab]);
            assert_eq!(success_text(&Operation::KeySequence { keys }), "Pressed 2 keys");
        }
        _ => panic!("expected an operation"),
    }
}

#[test]
fn invalid_fields_give_errors() {
    let mut clip = ClipboardClient::new(5);
    assert!(is_error(&dispatch(Request::ClickAt { x: 0, y: 0, button: Some("side".to_string()) }, &mut clip)));
    assert!(is_error(&dispatch(Request::KeyPress { key: "Zzz".to_string() }, &mut clip)));
    assert!(is_error(&dispatch(Request::KeyCombo { combo: "Ctrl+Zzz".to_string() }, &mut clip)));
    assert!(is_error(&dispatch(Request::KeyCombo { combo: "".to_string() }, &mut clip)));
    assert!(is_error(&dispatch(Request::KeySequence { keys: vec!["a".to_string(), "nope".to_string()] }, &mut clip)));
    assert!(is_error(&dispatch(Request::Screenshot { region: Some("moon".to_string()), include_cursor: None }, &mut clip)));
}

#[test]
fn screenshot_defaults() {
    let mut clip = ClipboardClient::new(5);
    match dispatch(Request::Screenshot { region: None, include_cursor: None }, &mut clip) {
        Dispatch::Perform(Operation::Screenshot { options }) => {
            assert_eq!(options, ScreenshotOptions { region: ScreenshotRegion::Fullscreen, include_cursor: false })
        }
        _ => panic!("expected an operation"),
    }
}

#[test]
fn test_screenshot_options() {
    let options = ScreenshotOptions::default();
    assert!(!options.include_cursor);
}

#[test]
fn failure_lists_methods_tried() {
    let op = Operation::Focus { element_id: "x".to_string() };
    match finish(&op, Step::Exhausted, &[InputMethod::Portal, InputMethod::XTest]) {
        Response::Error { error } => assert_eq!(error, "All input methods failed (tried: Portal, XTest)"),
        other => panic!("unexpected {:?}", other),
    }
    match finish(&op, Step::Aborted, &[InputMethod::Portal]) {
        Response::Error { error } => assert_eq!(error, "Operation cancelled or timed out"),
        other => panic!("unexpected {:?}", other),
    }
}

#[test]
fn clipboard_requests_use_history() {
    let mut clip = ClipboardClient::new(3);
    for t in ["1", "2", "3", "4"] {
        let d = dispatch(Request::ClipboardSet { content: t.to_string() }, &mut clip);
        assert!(matches!(d, Dispatch::Perform(Operation::SetClipboard { .. })));
    }
    assert_eq!(clip.history()[0].mime_type, "text/plain");
    assert_eq!(clip.history()[0].timestamp, 42);
    match dispatch(Request::ClipboardHistory { limit: Some(2) }, &mut clip) {
        Dispatch::Reply(Response::Data { data }) => assert_eq!(
            data,
            JsonValue::Object(vec![(
                "history".to_string(),
                JsonValue::Array(vec![JsonValue::Str("4".to_string()), JsonValue::Str("3".to_string())])
            )])
        ),
        _ => panic!("expected data"),
    }
    match dispatch(Request::ClipboardGet, &mut clip) {
        Dispatch::Reply(Response::Data { data }) => assert_eq!(
            data,
            JsonValue::Object(vec![("content".to_string(), JsonValue::Str("4".to_string()))])
        ),
        _ => panic!("expected data"),
    }
}

#[test]
fn registry_queries() {
    let mut clip = ClipboardClient::new(3);
    match dispatch(Request::DetectCompositor, &mut clip) {
        Dispatch::Reply(Response::Data { data }) => assert_eq!(
            data,
            JsonValue::Object(vec![
                ("compositor".to_string(), JsonValue::Str("Unknown".to_string())),
                ("is_wayland".to_string(), JsonValue::Bool(true)),
                ("has_xwayland".to_string(), JsonValue::Bool(false)),
            ])
        ),
        _ => panic!("expected data"),
    }
    match dispatch(Request::GetCapabilities, &mut clip) {
        Dispatch::Reply(Response::Data { data: JsonValue::Object(fs) }) => {
            assert_eq!(fs.len(), 6);
            assert_eq!(fs[0], ("has_portal".to_string(), JsonValue::Bool(true)));
            assert_eq!(fs[4], ("supports_input".to_string(), JsonValue::Bool(true)));
        }
        _ => panic!("expected data"),
    }
    match dispatch(Request::ListDesktops, &mut clip) {
        Dispatch::Reply(Response::Data { data }) => assert_eq!(
            data,
            JsonValue::Object(vec![("desktops".to_string(), JsonValue::Array(vec![]))])
        ),
        _ => panic!("expected data"),
    }
}
