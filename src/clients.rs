//! Small state holders around the automation backends and the control client.
use crate::text::push_str;
use vstd::prelude::*;

verus! {

/// Timing of input through the accessibility bus.
pub struct InputHandler {
    typing_delay_ms: u64,
    click_delay_ms: u64,
    max_retries: usize,
}

/// The attempts an accessibility input is given.
pub const INPUT_MAX_RETRIES: usize = 3;

impl InputHandler {
    pub closed spec fn typing_delay_view(&self) -> u64 {
        self.typing_delay_ms
    }

    pub closed spec fn click_delay_view(&self) -> u64 {
        self.click_delay_ms
    }

    pub closed spec fn max_retries_view(&self) -> usize {
        self.max_retries
    }

    /// A handler with these delays, in milliseconds.
    pub fn new(typing_delay_ms: u64, click_delay_ms: u64) -> (r: Self)
        ensures
            r.typing_delay_view() == typing_delay_ms,
            r.click_delay_view() == click_delay_ms,
            r.max_retries_view() == INPUT_MAX_RETRIES,
    {
        InputHandler { typing_delay_ms, click_delay_ms, max_retries: INPUT_MAX_RETRIES }
    }

    pub fn typing_delay_ms(&self) -> (r: u64)
        ensures
            r == self.typing_delay_view(),
    {
        self.typing_delay_ms
    }

    pub fn click_delay_ms(&self) -> (r: u64)
        ensures
            r == self.click_delay_view(),
    {
        self.click_delay_ms
    }

    pub fn max_retries(&self) -> (r: usize)
        ensures
            r == self.max_retries_view(),
    {
        self.max_retries
    }
}

/// What a wait for an element to gain focus does next.
#[derive(Debug, Clone, Copy, PartialEq, Eq, Structural)]
pub enum FocusWait {
    /// The element has focus.
    Focused,
    /// Check again later.
    KeepWaiting,
    /// The bound has passed: the operation fails, and is not retried elsewhere.
    TimedOut,
}

/// Focus handling, with the bound on waits for focus.
pub struct FocusManager {
    focus_timeout_ms: u64,
}

impl FocusManager {
    pub closed spec fn timeout_view(&self) -> u64 {
        self.focus_timeout_ms
    }

    /// A manager whose waits last at most `focus_timeout_ms` milliseconds.
    pub fn new(focus_timeout_ms: u64) -> (r: Self)
        ensures
            r.timeout_view() == focus_timeout_ms,
    {
        FocusManager { focus_timeout_ms }
    }

    pub fn focus_timeout_ms(&self) -> (r: u64)
        ensures
            r == self.timeout_view(),
    {
        self.focus_timeout_ms
    }

    /// The next step of a wait that began `elapsed_ms` ago: done once the
    /// element has focus, timed out once the bound has passed, else wait on.
    pub fn wait_step(&self, focused: bool, elapsed_ms: u64) -> (r: FocusWait)
        ensures
            r == (if focused {
                FocusWait::Focused
            } else if elapsed_ms >= self.timeout_view() {
                FocusWait::TimedOut
            } else {
                FocusWait::KeepWaiting
            }),
    {
        if focused {
            FocusWait::Focused
        } else if elapsed_ms >= self.focus_timeout_ms {
            FocusWait::TimedOut
        } else {
            FocusWait::KeepWaiting
        }
    }
}

/// The remote-desktop portal session, once the user granted one.
pub struct PortalClient {
    session_handle: Option<String>,
}

impl PortalClient {
    pub closed spec fn session_view(&self) -> Option<Seq<char>> {
        match self.session_handle {
            Some(h) => Some(h@),
            None => None,
        }
    }

    /// A client with no session yet.
    pub fn new() -> (r: Self)
        ensures
            r.session_view() is None,
    {
        PortalClient { session_handle: None }
    }

    /// Whether a session is open.
    pub fn has_session(&self) -> (r: bool)
        ensures
            r == self.session_view() is Some,
    {
        self.session_handle.is_some()
    }

    /// Records the session the portal granted.
    pub fn open_session(&mut self, handle: String)
        ensures
            final(self).session_view() == Some(handle@),
    {
        self.session_handle = Some(handle);
    }

    /// Ends the session and hands back its handle, for the caller to close.
    pub fn close(&mut self) -> (r: Option<String>)
        ensures
            final(self).session_view() is None,
            match r {
                Some(h) => old(self).session_view() == Some(h@),
                None => old(self).session_view() is None,
            },
    {
        let h = self.session_handle.take();
        h
    }
}

/// The control client's view of the daemon: where its socket is.
pub struct Client {
    socket_path: String,
}

impl Client {
    /// A client of the daemon listening at `socket_path`.
    pub fn new(socket_path: String) -> (r: Self)
        ensures
            r.socket_path_view() == socket_path@,
    {
        Client { socket_path }
    }

    pub closed spec fn socket_path_view(&self) -> Seq<char> {
        self.socket_path@
    }

    /// The daemon's socket address.
    pub fn socket_path(&self) -> (r: &str)
        ensures
            r@ == self.socket_path_view(),
    {
        self.socket_path.as_str()
    }
}

/// Why a compositor client could not be made.
#[derive(Debug, Clone, Copy, PartialEq, Eq, Structural)]
pub enum CompositorClientError {
    /// The variable naming the control socket is not set.
    SocketNotSet,
}

/// The Sway control channel.
pub struct SwayClient {
    socket_path: String,
}

impl SwayClient {
    pub closed spec fn socket_path_view(&self) -> Seq<char> {
        self.socket_path@
    }

    /// A client of the socket that `SWAYSOCK` names, as read by the caller.
    pub fn new(swaysock: Option<String>) -> (r: Result<Self, CompositorClientError>)
        ensures
            match swaysock {
                Some(p) => r matches Ok(c) && c.socket_path_view() == p@,
                None => r == Err::<Self, CompositorClientError>(CompositorClientError::SocketNotSet),
            },
    {
        match swaysock {
            Some(p) => Ok(SwayClient { socket_path: p }),
            None => Err(CompositorClientError::SocketNotSet),
        }
    }

    pub fn socket_path(&self) -> (r: &str)
        ensures
            r@ == self.socket_path_view(),
    {
        self.socket_path.as_str()
    }
}

/// The Hyprland control channel.
pub struct HyprlandClient {
    socket_path: String,
}

/// Where Hyprland's control socket lies for an instance signature.
pub open spec fn hyprland_socket_of(signature: Seq<char>) -> Seq<char> {
    "/tmp/hypr/"@ + signature + "/.socket.sock"@
}

impl HyprlandClient {
    pub closed spec fn socket_path_view(&self) -> Seq<char> {
        self.socket_path@
    }

    /// A client of the instance that `HYPRLAND_INSTANCE_SIGNATURE` names, as
    /// read by the caller.
    pub fn new(signature: Option<String>) -> (r: Result<Self, CompositorClientError>)
        ensures
            match signature {
                Some(s) => r matches Ok(c) && c.socket_path_view() == hyprland_socket_of(s@),
                None => r == Err::<Self, CompositorClientError>(CompositorClientError::SocketNotSet),
            },
    {
        match signature {
            Some(s) => {
                let mut p = String::from_str("/tmp/hypr/");
                push_str(&mut p, s.as_str());
                push_str(&mut p, "/.socket.sock");
                Ok(HyprlandClient { socket_path: p })
            },
            None => Err(CompositorClientError::SocketNotSet),
        }
    }

    pub fn socket_path(&self) -> (r: &str)
        ensures
            r@ == self.socket_path_view(),
    {
        self.socket_path.as_str()
    }
}

} // verus!
