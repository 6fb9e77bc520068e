//! The configuration surface: the default endpoint and the normalization
//! of the `websocket_port` option.

use zenoh_plugin_remote_api::config::{
    default_websocket_port, parse_websocket_port, websocket_port_from_number, Config,
};

#[test]
fn test_default_websocket_port() {
    assert_eq!(default_websocket_port(), "[::]:10000".to_string());
    let c = Config::fresh();
    assert_eq!(c.websocket_port, "[::]:10000".to_string());
    assert!(c.secure_websocket.is_none());
    assert!(c.__path__.is_none());
    assert!(c.__required__.is_none());
    assert!(c.__config__.is_none());
}

#[test]
fn bare_port_binds_every_interface() {
    assert_eq!(parse_websocket_port("8080"), Some("[::]:8080".to_string()));
    assert_eq!(
        websocket_port_from_number(8080),
        Some("[::]:8080".to_string())
    );
    assert_eq!(websocket_port_from_number(u32::MAX as u64 + 1), None);
}

#[test]
fn interface_and_port_pass_through() {
    assert_eq!(
        parse_websocket_port("0.0.0.0:9000"),
        Some("0.0.0.0:9000".to_string())
    );
    assert_eq!(
        parse_websocket_port("localhost:10000"),
        Some("localhost:10000".to_string())
    );
}

#[test]
fn bad_ports_are_rejected() {
    // More than one colon, an empty or non-numeric port, or a port beyond
    // 32 bits.
    assert_eq!(parse_websocket_port("a:b:c"), None);
    assert_eq!(parse_websocket_port("host:"), None);
    assert_eq!(parse_websocket_port("host:80a"), None);
    assert_eq!(parse_websocket_port("abc"), None);
    assert_eq!(parse_websocket_port(""), None);
    assert_eq!(parse_websocket_port("host:4294967296"), None);
    assert_eq!(
        parse_websocket_port("host:4294967295"),
        Some("host:4294967295".to_string())
    );
}
