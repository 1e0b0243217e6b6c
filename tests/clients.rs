use deskd::clients::{
    Client, CompositorClientError, FocusManager, FocusWait, HyprlandClient, InputHandler, PortalClient, SwayClient,
};

#[test]
fn test_input_handler_creation() {
    let handler = InputHandler::new(10, 50);
    assert_eq!(handler.typing_delay_ms(), 10);
    assert_eq!(handler.click_delay_ms(), 50);
}

#[test]
fn test_portal_client_creation() {
    let client = PortalClient::new();
    assert!(!client.has_session());
}

#[test]
fn portal_session_lifecycle() {
    let mut client = PortalClient::new();
    client.open_session("/session/1".to_string());
    assert!(client.has_session());
    assert_eq!(client.close(), Some("/session/1".to_string()));
    assert!(!client.has_session());
    assert_eq!(client.close(), None);
}

#[test]
fn test_hyprland_client() {
    let _ = HyprlandClient::new(None);
}

#[test]
fn test_sway_client() {
    let _ = SwayClient::new(None);
}

#[test]
fn compositor_client_sockets() {
    assert!(matches!(SwayClient::new(None), Err(CompositorClientError::SocketNotSet)));
    let s = SwayClient::new(Some("/run/sway.sock".to_string())).ok().unwrap();
    assert_eq!(s.socket_path(), "/run/sway.sock");
    let h = HyprlandClient::new(Some("abc".to_string())).ok().unwrap();
    assert_eq!(h.socket_path(), "/tmp/hypr/abc/.socket.sock");
    let c = Client::new("/tmp/d.sock".to_string());
    assert_eq!(c.socket_path(), "/tmp/d.sock");
}

#[test]
fn focus_wait_is_bounded() {
    let m = FocusManager::new(1000);
    assert_eq!(m.focus_timeout_ms(), 1000);
    assert_eq!(m.wait_step(false, 0), FocusWait::KeepWaiting);
    assert_eq!(m.wait_step(false, 999), FocusWait::KeepWaiting);
    assert_eq!(m.wait_step(false, 1000), FocusWait::TimedOut);
    assert_eq!(m.wait_step(true, 5000), FocusWait::Focused);
}
