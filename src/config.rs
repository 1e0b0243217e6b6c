//! Daemon configuration: defaults, home-directory expansion, environment
//! overrides and validation. Reading the file and the environment is the
//! caller's part; the values arrive here as strings.
use crate::text::{push_str, str_eq};
use vstd::prelude::*;

verus! {

/// How desktop sessions are found.
#[derive(Debug, Clone, Copy, PartialEq, Eq, Structural)]
pub enum SessionDiscovery {
    Auto,
    Manual,
}

impl Default for SessionDiscovery {
    fn default() -> (r: Self)
        ensures
            r == SessionDiscovery::Auto,
    {
        SessionDiscovery::Auto
    }
}

/// Delays and timeouts of input operations, in milliseconds.
#[derive(Debug, Clone, Copy, PartialEq, Eq, Structural)]
pub struct InputTiming {
    pub typing_delay_ms: u64,
    pub click_delay_ms: u64,
    pub focus_timeout_ms: u64,
}

impl Default for InputTiming {
    fn default() -> (r: Self)
        ensures
            r.typing_delay_ms == 10,
            r.click_delay_ms == 50,
            r.focus_timeout_ms == 1000,
    {
        InputTiming {
            typing_delay_ms: default_typing_delay(),
            click_delay_ms: default_click_delay(),
            focus_timeout_ms: default_focus_timeout(),
        }
    }
}

/// Settings of the Wayland side.
#[derive(Debug, Clone)]
pub struct WaylandConfig {
    /// A compositor forced by the user; detected when absent.
    pub compositor: Option<String>,
    pub input_methods: Vec<String>,
    pub retry_attempts: usize,
    pub retry_delay_ms: u64,
    pub portal_permission_timeout_ms: u64,
    pub clipboard_history_size: usize,
}

impl Default for WaylandConfig {
    fn default() -> (r: Self)
        ensures
            r.compositor is None,
            r.input_methods@.map_values(|s: String| s@) == default_input_method_names(),
            r.retry_attempts == 3,
            r.retry_delay_ms == 100,
            r.portal_permission_timeout_ms == 30000,
            r.clipboard_history_size == 100,
    {
        WaylandConfig {
            compositor: None,
            input_methods: default_input_methods(),
            retry_attempts: default_retry_attempts(),
            retry_delay_ms: default_retry_delay_ms(),
            portal_permission_timeout_ms: default_portal_timeout_ms(),
            clipboard_history_size: default_clipboard_history_size(),
        }
    }
}

/// The daemon's configuration.
#[derive(Debug, Clone)]
pub struct Config {
    pub database_path: String,
    pub socket_path: String,
    pub log_level: String,
    pub session_discovery: SessionDiscovery,
    pub input_timing: InputTiming,
    pub wayland: WaylandConfig,
}

/// The standard locations of configuration, socket and database.
#[derive(Debug, Clone)]
pub struct ConfigPaths {
    pub user_config: String,
    pub user_socket: String,
    pub user_database: String,
    pub system_config: String,
    pub system_socket: String,
    pub system_database: String,
}

/// Why a configuration was refused.
#[derive(Debug, Clone, Copy, PartialEq, Eq, Structural)]
pub enum ConfigError {
    /// The log level is none of error, warn, info, debug, trace.
    InvalidLogLevel,
    /// The database path is empty.
    EmptyDatabasePath,
    /// The socket path is empty.
    EmptySocketPath,
}

/// `p` with a leading `~/` replaced by the home directory, when one is known.
pub open spec fn expanded(p: Seq<char>, home: Option<Seq<char>>) -> Seq<char> {
    if p.len() >= 2 && p[0] == '~' && p[1] == '/' && home is Some {
        home->Some_0 + p.subrange(1, p.len() as int)
    } else {
        p
    }
}

/// Replaces a leading `~/` by the home directory, when one is known.
pub fn expand_home(path: &str, home: Option<&str>) -> (r: String)
    ensures
        r@ == expanded(path@, match home {
            Some(h) => Some(h@),
            None => None,
        }),
{
    let n = path.unicode_len();
    if n >= 2 && path.get_char(0) == '~' && path.get_char(1) == '/' {
        if let Some(h) = home {
            let mut r = String::from_str(h);
            push_str(&mut r, path.substring_char(1, n));
            return r;
        }
    }
    String::from_str(path)
}

pub open spec fn default_input_method_names() -> Seq<Seq<char>> {
    seq!["portal"@, "compositor_ipc"@, "libei"@, "ydotool"@, "xtest"@]
}

/// The log levels a configuration may name.
pub open spec fn valid_log_level(l: Seq<char>) -> bool {
    l == "error"@ || l == "warn"@ || l == "info"@ || l == "debug"@ || l == "trace"@
}

/// The default database path, under the home directory.
pub fn default_database_path(home: Option<&str>) -> (r: String)
    ensures
        r@ == expanded("~/.local/share/deskd/state.db"@, match home {
            Some(h) => Some(h@),
            None => None,
        }),
{
    expand_home("~/.local/share/deskd/state.db", home)
}

/// The default socket path, under the home directory.
pub fn default_socket_path(home: Option<&str>) -> (r: String)
    ensures
        r@ == expanded("~/.local/run/deskd.sock"@, match home {
            Some(h) => Some(h@),
            None => None,
        }),
{
    expand_home("~/.local/run/deskd.sock", home)
}

/// The log level given by the environment, else `info`.
pub fn default_log_level(from_env: Option<String>) -> (r: String)
    ensures
        r@ == match from_env {
            Some(l) => l@,
            None => "info"@,
        },
{
    match from_env {
        Some(l) => l,
        None => String::from_str("info"),
    }
}

pub fn default_typing_delay() -> (r: u64)
    ensures
        r == 10,
{
    10
}

pub fn default_click_delay() -> (r: u64)
    ensures
        r == 50,
{
    50
}

pub fn default_focus_timeout() -> (r: u64)
    ensures
        r == 1000,
{
    1000
}

/// The input methods in their default order, by name.
pub fn default_input_methods() -> (r: Vec<String>)
    ensures
        r@.map_values(|s: String| s@) == default_input_method_names(),
{
    let r = vec![
        String::from_str("portal"),
        String::from_str("compositor_ipc"),
        String::from_str("libei"),
        String::from_str("ydotool"),
        String::from_str("xtest"),
    ];
    assert(r@.map_values(|s: String| s@) =~= default_input_method_names());
    r
}

pub fn default_retry_attempts() -> (r: usize)
    ensures
        r == 3,
{
    3
}

pub fn default_retry_delay_ms() -> (r: u64)
    ensures
        r == 100,
{
    100
}

/// Time left to the user to answer the portal's permission dialog.
pub fn default_portal_timeout_ms() -> (r: u64)
    ensures
        r == 30000,
{
    30000
}

pub fn default_clipboard_history_size() -> (r: usize)
    ensures
        r == 100,
{
    100
}

impl Config {
    /// The configuration used when no file is found.
    pub fn defaults(home: Option<&str>, rust_log: Option<String>) -> (r: Self)
        ensures
            r.database_path@ == expanded("~/.local/share/deskd/state.db"@, match home {
                Some(h) => Some(h@),
                None => None,
            }),
            r.socket_path@ == expanded("~/.local/run/deskd.sock"@, match home {
                Some(h) => Some(h@),
                None => None,
            }),
            r.log_level@ == match rust_log {
                Some(l) => l@,
                None => "info"@,
            },
            r.session_discovery == SessionDiscovery::Auto,
            r.input_timing == (InputTiming { typing_delay_ms: 10, click_delay_ms: 50, focus_timeout_ms: 1000 }),
            r.wayland.compositor is None,
            r.wayland.input_methods@.map_values(|s: String| s@) == default_input_method_names(),
            r.wayland.retry_attempts == 3,
            r.wayland.clipboard_history_size == 100,
    {
        Config {
            database_path: default_database_path(home),
            socket_path: default_socket_path(home),
            log_level: default_log_level(rust_log),
            session_discovery: SessionDiscovery::default(),
            input_timing: InputTiming::default(),
            wayland: WaylandConfig::default(),
        }
    }

    /// Expands the home directory in both paths, then lets the environment
    /// override the database path, the socket path and the log level.
    pub fn apply_environment(
        &mut self,
        home: Option<&str>,
        database_path: Option<String>,
        socket_path: Option<String>,
        log_level: Option<String>,
    )
        ensures
            final(self).database_path@ == match database_path {
                Some(p) => p@,
                None => expanded(old(self).database_path@, match home {
                    Some(h) => Some(h@),
                    None => None,
                }),
            },
            final(self).socket_path@ == match socket_path {
                Some(p) => p@,
                None => expanded(old(self).socket_path@, match home {
                    Some(h) => Some(h@),
                    None => None,
                }),
            },
            final(self).log_level@ == match log_level {
                Some(l) => l@,
                None => old(self).log_level@,
            },
            final(self).session_discovery == old(self).session_discovery,
            final(self).input_timing == old(self).input_timing,
    {
        self.database_path = expand_home(self.database_path.as_str(), home);
        self.socket_path = expand_home(self.socket_path.as_str(), home);
        if let Some(p) = database_path {
            self.database_path = p;
        }
        if let Some(p) = socket_path {
            self.socket_path = p;
        }
        if let Some(l) = log_level {
            self.log_level = l;
        }
    }

    /// Checks the log level, then that neither path is empty.
    pub fn validate(&self) -> (r: Result<(), ConfigError>)
        ensures
            r == (if !valid_log_level(self.log_level@) {
                Err(ConfigError::InvalidLogLevel)
            } else if self.database_path@.len() == 0 {
                Err(ConfigError::EmptyDatabasePath)
            } else if self.socket_path@.len() == 0 {
                Err(ConfigError::EmptySocketPath)
            } else {
                Ok(())
            }),
    {
        let l = self.log_level.as_str();
        if !(str_eq(l, "error") || str_eq(l, "warn") || str_eq(l, "info") || str_eq(l, "debug") || str_eq(
            l,
            "trace",
        )) {
            return Err(ConfigError::InvalidLogLevel);
        }
        if self.database_path.as_str().unicode_len() == 0 {
            return Err(ConfigError::EmptyDatabasePath);
        }
        if self.socket_path.as_str().unicode_len() == 0 {
            return Err(ConfigError::EmptySocketPath);
        }
        Ok(())
    }

    /// The places searched for a configuration file, in order.
    pub fn config_candidates(home: Option<&str>) -> (r: Vec<String>)
        ensures
            r@.len() == 2,
            r@[0]@ == expanded("~/.config/deskd/deskd.conf"@, match home {
                Some(h) => Some(h@),
                None => None,
            }),
            r@[1]@ == "/etc/deskd/deskd.conf"@,
    {
        vec![expand_home("~/.config/deskd/deskd.conf", home), String::from_str("/etc/deskd/deskd.conf")]
    }

    /// The standard locations, per user and system-wide.
    pub fn default_paths(home: Option<&str>) -> (r: ConfigPaths)
        ensures
            r.user_config@ == expanded("~/.config/deskd/deskd.conf"@, match home {
                Some(h) => Some(h@),
                None => None,
            }),
            r.user_socket@ == expanded("~/.local/run/deskd.sock"@, match home {
                Some(h) => Some(h@),
                None => None,
            }),
            r.user_database@ == expanded("~/.local/share/deskd/state.db"@, match home {
                Some(h) => Some(h@),
                None => None,
            }),
            r.system_config@ == "/etc/deskd/deskd.conf"@,
            r.system_socket@ == "/var/run/deskd.sock"@,
            r.system_database@ == "/var/lib/deskd/state.db"@,
    {
        ConfigPaths {
            user_config: expand_home("~/.config/deskd/deskd.conf", home),
            user_socket: expand_home("~/.local/run/deskd.sock", home),
            user_database: expand_home("~/.local/share/deskd/state.db", home),
            system_config: String::from_str("/etc/deskd/deskd.conf"),
            system_socket: String::from_str("/var/run/deskd.sock"),
            system_database: String::from_str("/var/lib/deskd/state.db"),
        }
    }
}

} // verus!
