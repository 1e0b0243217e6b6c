use deskd::config::{default_input_methods, expand_home, Config, ConfigError, InputTiming};

#[test]
fn expands_only_leading_home() {
    assert_eq!(expand_home("~/x/y", Some("/home/u")), "/home/u/x/y");
    assert_eq!(expand_home("~/x", None), "~/x");
    assert_eq!(expand_home("/a/~/b", Some("/home/u")), "/a/~/b");
    assert_eq!(expand_home("~", Some("/home/u")), "~");
}

#[test]
fn defaults_and_validation() {
    let c = Config::defaults(Some("/home/u"), None);
    assert_eq!(c.database_path, "/home/u/.local/share/deskd/state.db");
    assert_eq!(c.socket_path, "/home/u/.local/run/deskd.sock");
    assert_eq!(c.log_level, "info");
    assert_eq!(c.input_timing, InputTiming { typing_delay_ms: 10, click_delay_ms: 50, focus_timeout_ms: 1000 });
    assert_eq!(c.wayland.retry_attempts, 3);
    assert_eq!(c.wayland.clipboard_history_size, 100);
    assert_eq!(default_input_methods(), vec!["portal", "compositor_ipc", "libei", "ydotool", "xtest"]);
    assert_eq!(c.validate(), Ok(()));

    let mut bad = c.clone();
    bad.log_level = "loud".to_string();
    assert_eq!(bad.validate(), Err(ConfigError::InvalidLogLevel));
    let mut bad = c.clone();
    bad.database_path = String::new();
    assert_eq!(bad.validate(), Err(ConfigError::EmptyDatabasePath));
    let mut bad = c.clone();
    bad.socket_path = String::new();
    assert_eq!(bad.validate(), Err(ConfigError::EmptySocketPath));
}

#[test]
fn environment_overrides() {
    let mut c = Config::defaults(None, Some("debug".to_string()));
    assert_eq!(c.log_level, "debug");
    c.apply_environment(Some("/h"), None, Some("/run/d.sock".to_string()), Some("trace".to_string()));
    assert_eq!(c.database_path, "/h/.local/share/deskd/state.db");
    assert_eq!(c.socket_path, "/run/d.sock");
    assert_eq!(c.log_level, "trace");
}

#[test]
fn standard_paths() {
    let p = Config::default_paths(Some("/h"));
    assert_eq!(p.user_config, "/h/.config/deskd/deskd.conf");
    assert_eq!(p.system_socket, "/var/run/deskd.sock");
    assert_eq!(Config::config_candidates(Some("/h")), vec!["/h/.config/deskd/deskd.conf", "/etc/deskd/deskd.conf"]);
}
