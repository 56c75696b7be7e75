use thunder_mirror::config::{Config, StreamMode};
use thunder_mirror::{DEFAULT_MAC_IP, DEFAULT_PORT, DEFAULT_WIN_IP, VERSION};

#[test]
fn test_default_config() {
    let config = Config::default();
    assert_eq!(config.port, 9999);
    assert_eq!(config.mode, StreamMode::Mirror);
}

#[test]
fn test_mac_sender_config() {
    let config = Config::mac_sender();
    assert_eq!(config.bind_address, "192.168.50.1");
    assert_eq!(config.target_address, "192.168.50.2");
}

#[test]
fn test_version_format() {
    assert!(VERSION.contains('.'), "Version should contain a dot");
}

#[test]
fn test_defaults() {
    assert_eq!(DEFAULT_MAC_IP, "192.168.50.1");
    assert_eq!(DEFAULT_WIN_IP, "192.168.50.2");
    assert_eq!(DEFAULT_PORT, 9999);
}

#[test]
fn default_config_binds_everywhere() {
    let config = Config::default();
    assert_eq!(config.bind_address, "0.0.0.0");
    assert_eq!(config.target_address, DEFAULT_WIN_IP);
    assert_eq!(config.log_level, "info");
    assert_eq!(config.log_dir, "logs");
}

#[test]
fn win_receiver_config_mirrors_the_sender() {
    let config = Config::win_receiver();
    assert_eq!(config.bind_address, DEFAULT_WIN_IP);
    assert_eq!(config.target_address, DEFAULT_MAC_IP);
    assert_eq!(config.port, DEFAULT_PORT);
    assert_eq!(config.mode, StreamMode::Mirror);
    assert_eq!(config.log_level, "info");
    assert_eq!(config.log_dir, "logs");
}

#[test]
fn mac_sender_config_keeps_the_defaults() {
    let config = Config::mac_sender();
    assert_eq!(config.port, 9999);
    assert_eq!(config.mode, StreamMode::Mirror);
    assert_eq!(config.log_level, "info");
    assert_eq!(config.log_dir, "logs");
}

#[test]
fn stream_modes_differ() {
    assert_ne!(StreamMode::Mirror, StreamMode::Extend);
}
