use udp_probe::config::{
    Config, ConfigError, Mode, CLIENT_PORT, DEFAULT_PACKET_AMOUNT, LOOPBACK, SERVER_PORT,
};

#[test]
fn mode_words() {
    assert_eq!(Mode::from_word("server"), Some(Mode::Server));
    assert_eq!(Mode::from_word("client"), Some(Mode::Client));
    assert_eq!(Mode::from_word("Server"), None);
    assert_eq!(Mode::from_word("clients"), None);
    assert_eq!(Mode::from_word(""), None);
}

#[test]
fn server_defaults() {
    let c = Config::new("server", None, Some(42), Some(9)).unwrap();
    assert_eq!(c.mode, Mode::Server);
    assert_eq!(c.local_ip, LOOPBACK);
    assert_eq!(c.local_port, SERVER_PORT);
    assert_eq!(c.remote_port, CLIENT_PORT);
    assert_eq!(c.remote_ip, LOOPBACK);
    assert_eq!(c.packet_amount, 0);
    assert_eq!(LOOPBACK, u32::from_be_bytes([127, 0, 0, 1]));
    assert_eq!((SERVER_PORT, CLIENT_PORT), (1234, 1235));
}

#[test]
fn client_values() {
    let c = Config::new("client", Some(7), None, None).unwrap();
    assert_eq!(c.mode, Mode::Client);
    assert_eq!(c.local_ip, 7);
    assert_eq!(c.local_port, CLIENT_PORT);
    assert_eq!(c.remote_ip, LOOPBACK);
    assert_eq!(c.remote_port, SERVER_PORT);
    assert_eq!(c.packet_amount, DEFAULT_PACKET_AMOUNT);
    assert_eq!(DEFAULT_PACKET_AMOUNT, 255);
    let c = Config::new("client", None, Some(99), Some(10)).unwrap();
    assert_eq!((c.remote_ip, c.packet_amount), (99, 10));
}

#[test]
fn refused_configurations() {
    assert_eq!(Config::new("proxy", None, None, None), Err(ConfigError::UnsupportedMode));
    assert_eq!(Config::new("client", None, None, Some(0)), Err(ConfigError::ZeroBudget));
    assert!(Config::new("server", None, None, Some(0)).is_ok());
}
