use deskd::detection::{
    detect_capabilities, detect_compositor, CompositorCapabilities, CompositorType, Probes,
    SessionEnv, WaylandClient,
};

fn env() -> SessionEnv {
    SessionEnv {
        wayland_display: None,
        display: None,
        xdg_current_desktop: None,
        desktop_session: None,
        swaysock: None,
        hyprland_instance_signature: None,
    }
}

fn probes() -> Probes {
    Probes {
        portal: false,
        gnome_dbus: false,
        kde_dbus: false,
        sway_socket: false,
        hyprland_socket: false,
        libei: false,
        wlr_protocols: false,
    }
}

#[test]
fn test_compositor_detection() {
    let compositor = detect_compositor(&env(), false);
    let _ = compositor;
}

#[test]
fn detection_test_wayland_detection() {
    let e = env();
    let is_wl = e.is_wayland();
    let has_xw = e.has_xwayland();
    let _ = (is_wl, has_xw);
}

#[test]
fn test_capabilities_detection() {
    let compositor = detect_compositor(&env(), false);
    let caps = detect_capabilities(compositor, &probes());
    assert!(caps.has_portal || !caps.has_portal);
}

#[test]
fn mod_test_wayland_detection() {
    let client = WaylandClient::new(&env(), &probes());
    let is_wayland = client.is_wayland();
    let _ = is_wayland;
}

#[test]
fn test_xwayland_detection() {
    let client = WaylandClient::new(&env(), &probes());
    let has_xwayland = client.has_xwayland();
    let _ = has_xwayland;
}

#[test]
fn detection_precedence() {
    let mut e = env();
    assert_eq!(detect_compositor(&e, true), CompositorType::X11);
    e.wayland_display = Some("wayland-0".to_string());
    assert_eq!(detect_compositor(&e, false), CompositorType::Unknown);
    assert_eq!(detect_compositor(&e, true), CompositorType::Wlroots);
    e.hyprland_instance_signature = Some("abc".to_string());
    assert_eq!(detect_compositor(&e, true), CompositorType::Hyprland);
    e.swaysock = Some("/run/sway.sock".to_string());
    assert_eq!(detect_compositor(&e, true), CompositorType::Sway);
    e.desktop_session = Some("Plasma".to_string());
    assert_eq!(detect_compositor(&e, true), CompositorType::Kde);
    e.xdg_current_desktop = Some("ubuntu:GNOME".to_string());
    assert_eq!(detect_compositor(&e, true), CompositorType::Gnome);
}

#[test]
fn capability_table() {
    let mut p = probes();
    p.portal = true;
    p.sway_socket = true;
    p.libei = true;
    let c = detect_capabilities(CompositorType::Sway, &p);
    assert_eq!(
        c,
        CompositorCapabilities {
            has_portal: true,
            has_ipc: true,
            has_wlr_protocols: true,
            has_libei: true,
            supports_screenshots: true,
            supports_input: true,
            supports_clipboard: true,
        }
    );
    let u = detect_capabilities(CompositorType::Unknown, &probes());
    assert!(!u.supports_input && !u.supports_clipboard && !u.supports_screenshots);
    let x = detect_capabilities(CompositorType::X11, &probes());
    assert!(x.supports_input && x.supports_clipboard && x.supports_screenshots && !x.has_ipc);
    let g = detect_capabilities(CompositorType::Gnome, &p);
    assert!(g.supports_input && !g.has_ipc && !g.has_wlr_protocols);
}

#[test]
fn wayland_client_snapshot() {
    let mut e = env();
    e.wayland_display = Some("wayland-1".to_string());
    e.display = Some(":0".to_string());
    e.xdg_current_desktop = Some("KDE".to_string());
    let mut client = WaylandClient::new(&e, &probes());
    assert_eq!(*client.compositor(), CompositorType::Kde);
    assert!(client.is_wayland() && client.has_xwayland());
    assert_eq!(client.compositor().name(), "Kde");
    client.redetect(&env(), &probes());
    assert_eq!(*client.compositor(), CompositorType::X11);
    assert!(client.capabilities().supports_input);
}
