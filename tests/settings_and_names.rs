use quincy::addr::IpAddress;
use quincy::config::{
    default_bind_address, default_log_level, AuthType, ConnectionConfig, CongestionController,
    CryptoConfig, KeyExchange, NetworkConfig, QUIC_MTU_OVERHEAD,
};
use quincy::dns::delete_dns_servers;
use quincy::error::{AuthError, ConfigError, NetworkError, QuincyError};
use quincy::gui::{format_duration, ConnectionStatus, GuiError};
use quincy::validation::{is_valid_config_name, validate_config_name, validate_instance_name};

#[test]
fn connection_defaults() {
    let c = ConnectionConfig::default();
    assert_eq!(c.mtu, 1400);
    assert_eq!(c.congestion_controller, CongestionController::Cubic);
    assert_eq!(c.connection_timeout_s, 30);
    assert_eq!(c.keep_alive_interval_s, 25);
    assert_eq!(c.send_buffer_size, 2097152);
    assert_eq!(c.recv_buffer_size, 2097152);
    assert_eq!(CryptoConfig::default().key_exchange, KeyExchange::Hybrid);
    let n = NetworkConfig::default();
    assert!(n.routes.is_empty() && n.dns_servers.is_empty());
    assert_eq!(default_log_level(), "info");
    assert_eq!(default_bind_address(), IpAddress::V4([0, 0, 0, 0]));
    assert_eq!(AuthType::UsersFile, AuthType::UsersFile);
}

#[test]
fn mtu_overhead_is_added() {
    let mut c = ConnectionConfig::default();
    assert_eq!(c.mtu_with_overhead(), 1442);
    c.mtu = 1500;
    assert_eq!(c.mtu_with_overhead(), 1500 + QUIC_MTU_OVERHEAD);
}

#[test]
fn config_names() {
    assert!(is_valid_config_name("office-vpn_2"));
    assert!(is_valid_config_name("A"));
    assert!(!is_valid_config_name(""));
    assert!(!is_valid_config_name("has space"));
    assert!(!is_valid_config_name("dots.not.allowed"));
    assert!(!is_valid_config_name("ünïcode"));
    assert!(!is_valid_config_name("trailing\n"));
}

#[test]
fn invalid_names_name_their_field() {
    assert!(validate_config_name("home").is_ok());
    match validate_config_name("bad name") {
        Err(QuincyError::Config(ConfigError::InvalidValue { field, reason })) => {
            assert_eq!(field, "config_name");
            assert_eq!(reason, "contains unsupported characters (allowed: letters, digits, '-', '_')");
        }
        other => panic!("unexpected {other:?}"),
    }
    assert!(validate_instance_name("inst_1").is_ok());
    match validate_instance_name("") {
        Err(QuincyError::Config(ConfigError::InvalidValue { field, .. })) => {
            assert_eq!(field, "instance_name")
        }
        other => panic!("unexpected {other:?}"),
    }
}

#[test]
fn durations_are_formatted() {
    assert_eq!(format_duration(86400 + 2 * 3600 + 30 * 60 + 45), "1d 2h 30m 45s");
    assert_eq!(format_duration(5 * 60 + 23), "5m 23s");
    assert_eq!(format_duration(42), "42s");
    assert_eq!(format_duration(0), "0s");
    assert_eq!(format_duration(3600), "1h");
    assert_eq!(format_duration(2 * 86400 + 7), "2d 7s");
    assert_eq!(format_duration(u64::MAX), "213503982334601d 7h 15s");
}

#[test]
fn gui_errors_and_messages() {
    assert_eq!(GuiError::auth_failed("bad".to_string()).message(), "Authentication failed: bad");
    assert_eq!(
        GuiError::network_unreachable("down".to_string()).message(),
        "Network unreachable: down"
    );
    assert_eq!(
        GuiError::config_invalid("mtu".to_string(), "too big".to_string()).message(),
        "Configuration invalid: mtu - too big"
    );
    assert_eq!(GuiError::connection_closed("bye".to_string()).message(), "Connection closed: bye");
    assert_eq!(GuiError::ipc("x".to_string()).message(), "IPC error: x");
    assert_eq!(GuiError::daemon("d".to_string()).message(), "Daemon error: d");
    assert_eq!(GuiError::timeout("t".to_string()).message(), "Timeout: t");
    assert_eq!(GuiError::permission_denied("p".to_string()).message(), "Permission denied: p");
    assert_eq!(GuiError::other("plain".to_string()).message(), "plain");
    let status = ConnectionStatus::Error(GuiError::timeout("t".to_string()));
    assert_ne!(status, ConnectionStatus::Connected);
}

#[test]
fn error_constructors() {
    assert_eq!(QuincyError::invalid_credentials(), QuincyError::Auth(AuthError::InvalidCredentials));
    assert_eq!(
        QuincyError::connection_failed("host:1".to_string()),
        QuincyError::Network(NetworkError::ConnectionFailed { address: "host:1".to_string() })
    );
    assert_eq!(
        QuincyError::system("boom".to_string()),
        QuincyError::System { message: "boom".to_string() }
    );
    assert_eq!(
        QuincyError::config_file_not_found("/etc/q.toml".to_string()),
        QuincyError::Config(ConfigError::FileNotFound { path: "/etc/q.toml".to_string() })
    );
}

#[test]
fn dns_cleanup_is_a_no_op() {
    assert!(delete_dns_servers().is_ok());
}
