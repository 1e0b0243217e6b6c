//! The capability registry: which compositor runs the session, and what kinds
//! of automation it plausibly allows. The environment and the probes are read
//! by the caller and handed in as plain values.
use crate::text::{contains, lower_of, lowercase, seq_contains};
use vstd::prelude::*;

verus! {

/// The kind of graphical session.
#[derive(Debug, Clone, Copy, PartialEq, Eq, Structural)]
pub enum CompositorType {
    Gnome,
    Kde,
    Sway,
    Hyprland,
    /// A generic wlroots-based compositor.
    Wlroots,
    Unknown,
    /// No Wayland session at all.
    X11,
}

/// What the session allows, as flags.
#[derive(Debug, Clone, Copy, PartialEq, Eq, Structural)]
pub struct CompositorCapabilities {
    pub has_portal: bool,
    pub has_ipc: bool,
    pub has_wlr_protocols: bool,
    pub has_libei: bool,
    pub supports_screenshots: bool,
    pub supports_input: bool,
    pub supports_clipboard: bool,
}

/// The session-identifying environment variables, each as read (absent when
/// unset or not valid Unicode).
#[derive(Debug, Clone)]
pub struct SessionEnv {
    pub wayland_display: Option<String>,
    pub display: Option<String>,
    pub xdg_current_desktop: Option<String>,
    pub desktop_session: Option<String>,
    pub swaysock: Option<String>,
    pub hyprland_instance_signature: Option<String>,
}

/// The results of the runtime probes.
#[derive(Debug, Clone, Copy, PartialEq, Eq, Structural)]
pub struct Probes {
    /// The desktop portal answers.
    pub portal: bool,
    /// The GNOME Shell control interface answers.
    pub gnome_dbus: bool,
    /// The KWin control interface answers.
    pub kde_dbus: bool,
    /// The Sway control socket exists.
    pub sway_socket: bool,
    /// The Hyprland control socket exists.
    pub hyprland_socket: bool,
    /// The low-level injection library is present.
    pub libei: bool,
    /// The wlroots protocols are advertised.
    pub wlr_protocols: bool,
}

/// The lower-cased hint names GNOME.
pub open spec fn names_gnome(s: Seq<char>) -> bool {
    seq_contains(lower_of(s), "gnome"@)
}

/// The lower-cased hint names KDE or Plasma.
pub open spec fn names_kde(s: Seq<char>) -> bool {
    seq_contains(lower_of(s), "kde"@) || seq_contains(lower_of(s), "plasma"@)
}

/// The lower-cased hint names Sway.
pub open spec fn names_sway(s: Seq<char>) -> bool {
    seq_contains(lower_of(s), "sway"@)
}

/// The compositor that the environment and probes point to, in this order:
/// no Wayland display means X11; then the current-desktop name (GNOME, KDE);
/// then the session name (GNOME, KDE, Sway); then the Sway socket variable,
/// the Hyprland signature, the wlroots protocols; else unknown.
pub open spec fn compositor_of(env: SessionEnv, wlr_protocols: bool) -> CompositorType {
    if env.wayland_display is None {
        CompositorType::X11
    } else if env.xdg_current_desktop matches Some(s) && names_gnome(s@) {
        CompositorType::Gnome
    } else if env.xdg_current_desktop matches Some(s) && names_kde(s@) {
        CompositorType::Kde
    } else if env.desktop_session matches Some(s) && names_gnome(s@) {
        CompositorType::Gnome
    } else if env.desktop_session matches Some(s) && names_kde(s@) {
        CompositorType::Kde
    } else if env.desktop_session matches Some(s) && names_sway(s@) {
        CompositorType::Sway
    } else if env.swaysock is Some {
        CompositorType::Sway
    } else if env.hyprland_instance_signature is Some {
        CompositorType::Hyprland
    } else if wlr_protocols {
        CompositorType::Wlroots
    } else {
        CompositorType::Unknown
    }
}

/// The capability table, keyed by compositor and adjusted by the probes.
pub open spec fn capabilities_of(kind: CompositorType, p: Probes) -> CompositorCapabilities {
    let base = CompositorCapabilities {
        has_portal: p.portal,
        has_ipc: false,
        has_wlr_protocols: false,
        has_libei: p.libei,
        supports_screenshots: false,
        supports_input: false,
        supports_clipboard: false,
    };
    match kind {
        CompositorType::Gnome => CompositorCapabilities {
            has_ipc: p.gnome_dbus,
            supports_screenshots: true,
            supports_input: p.portal,
            supports_clipboard: true,
            ..base
        },
        CompositorType::Kde => CompositorCapabilities {
            has_ipc: p.kde_dbus,
            supports_screenshots: true,
            supports_input: p.portal,
            supports_clipboard: true,
            ..base
        },
        CompositorType::Sway => CompositorCapabilities {
            has_ipc: p.sway_socket,
            has_wlr_protocols: true,
            supports_screenshots: true,
            supports_input: p.sway_socket || p.portal,
            supports_clipboard: true,
            ..base
        },
        CompositorType::Hyprland => CompositorCapabilities {
            has_ipc: p.hyprland_socket,
            supports_screenshots: true,
            supports_input: p.hyprland_socket || p.portal,
            supports_clipboard: true,
            ..base
        },
        CompositorType::Wlroots => CompositorCapabilities {
            has_wlr_protocols: true,
            supports_screenshots: true,
            supports_input: p.portal,
            supports_clipboard: true,
            ..base
        },
        CompositorType::X11 => CompositorCapabilities {
            supports_screenshots: true,
            supports_input: true,
            supports_clipboard: true,
            ..base
        },
        CompositorType::Unknown => CompositorCapabilities {
            supports_input: p.portal,
            supports_clipboard: p.portal,
            ..base
        },
    }
}

fn hint_gnome(s: &String) -> (r: bool)
    ensures
        r == names_gnome(s@),
{
    contains(lowercase(s.as_str()).as_str(), "gnome")
}

fn hint_kde(s: &String) -> (r: bool)
    ensures
        r == names_kde(s@),
{
    let l = lowercase(s.as_str());
    contains(l.as_str(), "kde") || contains(l.as_str(), "plasma")
}

fn hint_sway(s: &String) -> (r: bool)
    ensures
        r == names_sway(s@),
{
    contains(lowercase(s.as_str()).as_str(), "sway")
}

impl SessionEnv {
    /// A Wayland display is named.
    pub fn is_wayland(&self) -> (r: bool)
        ensures
            r == self.wayland_display is Some,
    {
        self.wayland_display.is_some()
    }

    /// An X display is named inside a Wayland session.
    pub fn has_xwayland(&self) -> (r: bool)
        ensures
            r == (self.display is Some && self.wayland_display is Some),
    {
        self.display.is_some() && self.is_wayland()
    }
}

/// Detects the compositor from the environment and the wlroots probe.
pub fn detect_compositor(env: &SessionEnv, wlr_protocols: bool) -> (r: CompositorType)
    ensures
        r == compositor_of(*env, wlr_protocols),
{
    if !env.is_wayland() {
        return CompositorType::X11;
    }
    if let Some(s) = &env.xdg_current_desktop {
        if hint_gnome(s) {
            return CompositorType::Gnome;
        } else if hint_kde(s) {
            return CompositorType::Kde;
        }
    }
    if let Some(s) = &env.desktop_session {
        if hint_gnome(s) {
            return CompositorType::Gnome;
        } else if hint_kde(s) {
            return CompositorType::Kde;
        } else if hint_sway(s) {
            return CompositorType::Sway;
        }
    }
    if env.swaysock.is_some() {
        return CompositorType::Sway;
    }
    if env.hyprland_instance_signature.is_some() {
        return CompositorType::Hyprland;
    }
    if wlr_protocols {
        return CompositorType::Wlroots;
    }
    CompositorType::Unknown
}

/// The capabilities of a compositor, given the probe results.
pub fn detect_capabilities(kind: CompositorType, p: &Probes) -> (r: CompositorCapabilities)
    ensures
        r == capabilities_of(kind, *p),
{
    let mut caps = CompositorCapabilities {
        has_portal: p.portal,
        has_ipc: false,
        has_wlr_protocols: false,
        has_libei: p.libei,
        supports_screenshots: false,
        supports_input: false,
        supports_clipboard: false,
    };
    match kind {
        CompositorType::Gnome => {
            caps.has_ipc = p.gnome_dbus;
            caps.supports_screenshots = true;
            caps.supports_input = caps.has_portal;
            caps.supports_clipboard = true;
        },
        CompositorType::Kde => {
            caps.has_ipc = p.kde_dbus;
            caps.supports_screenshots = true;
            caps.supports_input = caps.has_portal;
            caps.supports_clipboard = true;
        },
        CompositorType::Sway => {
            caps.has_ipc = p.sway_socket;
            caps.has_wlr_protocols = true;
            caps.supports_screenshots = true;
            caps.supports_input = caps.has_ipc || caps.has_portal;
            caps.supports_clipboard = true;
        },
        CompositorType::Hyprland => {
            caps.has_ipc = p.hyprland_socket;
            caps.supports_screenshots = true;
            caps.supports_input = caps.has_ipc || caps.has_portal;
            caps.supports_clipboard = true;
        },
        CompositorType::Wlroots => {
            caps.has_wlr_protocols = true;
            caps.supports_screenshots = true;
            caps.supports_input = caps.has_portal;
            caps.supports_clipboard = true;
        },
        CompositorType::X11 => {
            caps.supports_screenshots = true;
            caps.supports_input = true;
            caps.supports_clipboard = true;
        },
        CompositorType::Unknown => {
            caps.supports_input = caps.has_portal;
            caps.supports_clipboard = caps.has_portal;
        },
    }
    caps
}

/// The wire name of a compositor kind.
pub open spec fn compositor_name(k: CompositorType) -> Seq<char> {
    match k {
        CompositorType::Gnome => "Gnome"@,
        CompositorType::Kde => "Kde"@,
        CompositorType::Sway => "Sway"@,
        CompositorType::Hyprland => "Hyprland"@,
        CompositorType::Wlroots => "Wlroots"@,
        CompositorType::Unknown => "Unknown"@,
        CompositorType::X11 => "X11"@,
    }
}

impl CompositorType {
    /// The wire name of this kind.
    pub fn name(&self) -> (r: String)
        ensures
            r@ == compositor_name(*self),
    {
        match self {
            CompositorType::Gnome => String::from_str("Gnome"),
            CompositorType::Kde => String::from_str("Kde"),
            CompositorType::Sway => String::from_str("Sway"),
            CompositorType::Hyprland => String::from_str("Hyprland"),
            CompositorType::Wlroots => String::from_str("Wlroots"),
            CompositorType::Unknown => String::from_str("Unknown"),
            CompositorType::X11 => String::from_str("X11"),
        }
    }
}

/// The session as detected once: the compositor, its capabilities, and
/// whether Wayland and XWayland are present. Read-only until re-detected.
pub struct WaylandClient {
    compositor: CompositorType,
    capabilities: CompositorCapabilities,
    wayland: bool,
    xwayland: bool,
}

impl WaylandClient {
    pub closed spec fn compositor_view(&self) -> CompositorType {
        self.compositor
    }

    pub closed spec fn capabilities_view(&self) -> CompositorCapabilities {
        self.capabilities
    }

    pub closed spec fn wayland_view(&self) -> bool {
        self.wayland
    }

    pub closed spec fn xwayland_view(&self) -> bool {
        self.xwayland
    }

    /// Detects the session from the environment and the probes.
    pub fn new(env: &SessionEnv, probes: &Probes) -> (r: Self)
        ensures
            r.compositor_view() == compositor_of(*env, probes.wlr_protocols),
            r.capabilities_view() == capabilities_of(r.compositor_view(), *probes),
            r.wayland_view() == env.wayland_display is Some,
            r.xwayland_view() == (env.display is Some && env.wayland_display is Some),
    {
        let compositor = detect_compositor(env, probes.wlr_protocols);
        let capabilities = detect_capabilities(compositor, probes);
        WaylandClient {
            compositor,
            capabilities,
            wayland: env.is_wayland(),
            xwayland: env.has_xwayland(),
        }
    }

    /// Detects the session again, in place of what was detected before.
    pub fn redetect(&mut self, env: &SessionEnv, probes: &Probes)
        ensures
            final(self).compositor_view() == compositor_of(*env, probes.wlr_protocols),
            final(self).capabilities_view() == capabilities_of(final(self).compositor_view(), *probes),
            final(self).wayland_view() == env.wayland_display is Some,
            final(self).xwayland_view() == (env.display is Some && env.wayland_display is Some),
    {
        *self = WaylandClient::new(env, probes);
    }

    /// The detected compositor.
    pub fn compositor(&self) -> (r: &CompositorType)
        ensures
            *r == self.compositor_view(),
    {
        &self.compositor
    }

    /// The detected capabilities.
    pub fn capabilities(&self) -> (r: &CompositorCapabilities)
        ensures
            *r == self.capabilities_view(),
    {
        &self.capabilities
    }

    /// The session is a Wayland session.
    pub fn is_wayland(&self) -> (r: bool)
        ensures
            r == self.wayland_view(),
    {
        self.wayland
    }

    /// XWayland is available in the session.
    pub fn has_xwayland(&self) -> (r: bool)
        ensures
            r == self.xwayland_view(),
    {
        self.xwayland
    }
}

} // verus!
