use gimme_core::config::{Config, ConfigError, EnvValues};
use gimme_core::text::parse_unsigned;

fn values() -> EnvValues {
    EnvValues {
        database_url: Some("postgres://localhost/db".to_string()),
        database_max_connections: None,
        database_min_connections: None,
        database_connect_timeout: None,
        database_idle_timeout: None,
        server_host: None,
        server_port: None,
        rust_log: None,
        app_env: None,
        kakao_client_id: None,
        kakao_redirect_uri: None,
        gmail_user: None,
        gmail_app_password: None,
        redis_url: None,
    }
}

#[test]
fn parse_unsigned_follows_integer_syntax() {
    assert_eq!(parse_unsigned("0", 10), Some(0));
    assert_eq!(parse_unsigned("3000", 65535), Some(3000));
    assert_eq!(parse_unsigned("+42", 100), Some(42));
    assert_eq!(parse_unsigned("65535", 65535), Some(65535));
    assert_eq!(parse_unsigned("65536", 65535), None);
    assert_eq!(parse_unsigned("18446744073709551615", u64::MAX), Some(u64::MAX));
    assert_eq!(parse_unsigned("18446744073709551616", u64::MAX), None);
    assert_eq!(parse_unsigned("", 10), None);
    assert_eq!(parse_unsigned("+", 10), None);
    assert_eq!(parse_unsigned("-1", 10), None);
    assert_eq!(parse_unsigned("12a", 1000), None);
    assert_eq!(parse_unsigned(" 1", 1000), None);
}

#[test]
fn defaults_fill_unset_settings() {
    let c = Config::from_env(values()).unwrap();
    assert_eq!(c.database_url, "postgres://localhost/db");
    assert_eq!(c.database_max_connections, 100);
    assert_eq!(c.database_min_connections, 5);
    assert_eq!(c.database_connect_timeout, 8);
    assert_eq!(c.database_idle_timeout, 8);
    assert_eq!(c.server_host, "127.0.0.1");
    assert_eq!(c.server_port, 3000);
    assert_eq!(c.rust_log, "info");
    assert_eq!(c.app_env, "dev");
    assert_eq!(c.kakao_client_id, "");
    assert_eq!(c.redis_url, "redis://127.0.0.1:6379/");
}

#[test]
fn given_settings_win() {
    let mut v = values();
    v.server_port = Some("8080".to_string());
    v.app_env = Some("prod".to_string());
    v.database_idle_timeout = Some("30".to_string());
    let c = Config::from_env(v).unwrap();
    assert_eq!(c.server_port, 8080);
    assert_eq!(c.app_env, "prod");
    assert_eq!(c.database_idle_timeout, 30);
}

#[test]
fn bad_settings_are_named() {
    let mut v = values();
    v.database_url = None;
    assert_eq!(Config::from_env(v), Err(ConfigError::Missing("DATABASE_URL".to_string())));
    let mut v = values();
    v.server_port = Some("70000".to_string());
    assert_eq!(Config::from_env(v), Err(ConfigError::InvalidNumber("SERVER_PORT".to_string())));
    let mut v = values();
    v.database_min_connections = Some("five".to_string());
    assert_eq!(Config::from_env(v), Err(ConfigError::InvalidNumber("DATABASE_MIN_CONNECTIONS".to_string())));
}

#[test]
fn test_gmail_provider_dev_mode() {
    let config = Config {
        database_url: "".to_string(),
        database_max_connections: 100,
        database_min_connections: 5,
        database_connect_timeout: 8,
        database_idle_timeout: 8,
        server_host: "localhost".to_string(),
        server_port: 3000,
        rust_log: "info".to_string(),
        app_env: "dev".to_string(),
        kakao_client_id: "".to_string(),
        kakao_redirect_uri: "".to_string(),
        gmail_user: "".to_string(),
        gmail_app_password: "".to_string(),
        redis_url: "".to_string(),
    };
    // In the dev environment no mailer is built and codes are only printed.
    assert!(gimme_core::text::mail_delivery_disabled(&config.app_env));
    assert_eq!(config.app_env, "dev");
    assert_eq!(gimme_core::text::verification_key("test@example.com"), "verification:test@example.com");
}
