//! Settings of the service.
use vstd::prelude::*;
use vstd::string::*;
use crate::text::{parse_unsigned, unsigned_value};

verus! {

/// Settings of the service: storage, server, providers and mail.
#[derive(Debug, Clone, PartialEq, Eq)]
pub struct Config {
    pub database_url: String,
    pub database_max_connections: u32,
    pub database_min_connections: u32,
    pub database_connect_timeout: u64,
    pub database_idle_timeout: u64,
    pub server_host: String,
    pub server_port: u16,
    pub rust_log: String,
    pub app_env: String,
    pub kakao_client_id: String,
    pub kakao_redirect_uri: String,
    pub gmail_user: String,
    pub gmail_app_password: String,
    pub redis_url: String,
}

/// The settings as the environment gives them: each one that is unset is
/// absent.
#[derive(Debug, Clone, PartialEq, Eq)]
pub struct EnvValues {
    pub database_url: Option<String>,
    pub database_max_connections: Option<String>,
    pub database_min_connections: Option<String>,
    pub database_connect_timeout: Option<String>,
    pub database_idle_timeout: Option<String>,
    pub server_host: Option<String>,
    pub server_port: Option<String>,
    pub rust_log: Option<String>,
    pub app_env: Option<String>,
    pub kakao_client_id: Option<String>,
    pub kakao_redirect_uri: Option<String>,
    pub gmail_user: Option<String>,
    pub gmail_app_password: Option<String>,
    pub redis_url: Option<String>,
}

/// Why the settings cannot be read.
#[derive(Debug, Clone, PartialEq, Eq)]
pub enum ConfigError {
    /// A setting that has no default is unset; the text is its name.
    Missing(String),
    /// A numeric setting is no number of its type; the text is its name.
    InvalidNumber(String),
}

/// The text of a setting, or `default` where it is unset.
pub open spec fn or_default(v: Option<String>, default: Seq<char>) -> Seq<char> {
    match v {
        Some(s) => s@,
        None => default,
    }
}

/// The number that a setting holds, where it holds one of at most `max`.
pub open spec fn setting_number(v: Option<String>, default: Seq<char>, max: int) -> Option<int> {
    match unsigned_value(or_default(v, default)) {
        Some(n) => if n <= max {
            Some(n)
        } else {
            None
        },
        None => None,
    }
}

/// Whether every setting can be read: the database URL is set, and each
/// numeric setting (or its default) is a number of its type.
pub open spec fn config_readable(v: EnvValues) -> bool {
    &&& v.database_url is Some
    &&& setting_number(v.server_port, "3000"@, u16::MAX as int) is Some
    &&& setting_number(v.database_max_connections, "100"@, u32::MAX as int) is Some
    &&& setting_number(v.database_min_connections, "5"@, u32::MAX as int) is Some
    &&& setting_number(v.database_connect_timeout, "8"@, u64::MAX as int) is Some
    &&& setting_number(v.database_idle_timeout, "8"@, u64::MAX as int) is Some
}

/// The error names the setting `name`.
pub open spec fn names_setting(r: Result<Config, ConfigError>, missing: bool, name: Seq<char>) -> bool {
    match r {
        Err(ConfigError::Missing(n)) => missing && n@ == name,
        Err(ConfigError::InvalidNumber(n)) => !missing && n@ == name,
        Ok(_) => false,
    }
}

/// Reads a text setting, with a default.
fn text_setting(v: Option<String>, default: &str) -> (r: String)
    ensures
        r@ == or_default(v, default@),
{
    match v {
        Some(s) => s,
        None => String::from_str(default),
    }
}

/// Reads a numeric setting of at most `max`, with a default.
fn number_setting(v: &Option<String>, default: &str, max: u64) -> (r: Option<u64>)
    ensures
        match r {
            Some(n) => setting_number(*v, default@, max as int) == Some(n as int),
            None => setting_number(*v, default@, max as int) is None,
        },
{
    match v {
        Some(s) => parse_unsigned(s.as_str(), max),
        None => parse_unsigned(default, max),
    }
}

impl Config {
    /// The settings from what the environment gives: the database URL is
    /// required; every other setting has a default; the numeric ones must
    /// be numbers of their types.
    pub fn from_env(v: EnvValues) -> (r: Result<Config, ConfigError>)
        ensures
            v.database_url is None ==> names_setting(r, true, "DATABASE_URL"@),
            v.database_url is Some && setting_number(v.server_port, "3000"@, u16::MAX as int) is None
                ==> names_setting(r, false, "SERVER_PORT"@),
            r is Ok <==> config_readable(v),
            match r {
                Ok(c) => {
                    &&& c.database_url@ == v.database_url.unwrap()@
                    &&& c.server_port as int == setting_number(v.server_port, "3000"@, u16::MAX as int).unwrap()
                    &&& c.database_max_connections as int == setting_number(
                        v.database_max_connections,
                        "100"@,
                        u32::MAX as int,
                    ).unwrap()
                    &&& c.database_min_connections as int == setting_number(
                        v.database_min_connections,
                        "5"@,
                        u32::MAX as int,
                    ).unwrap()
                    &&& c.database_connect_timeout as int == setting_number(
                        v.database_connect_timeout,
                        "8"@,
                        u64::MAX as int,
                    ).unwrap()
                    &&& c.database_idle_timeout as int == setting_number(
                        v.database_idle_timeout,
                        "8"@,
                        u64::MAX as int,
                    ).unwrap()
                    &&& c.server_host@ == or_default(v.server_host, "127.0.0.1"@)
                    &&& c.rust_log@ == or_default(v.rust_log, "info"@)
                    &&& c.app_env@ == or_default(v.app_env, "dev"@)
                    &&& c.kakao_client_id@ == or_default(v.kakao_client_id, ""@)
                    &&& c.kakao_redirect_uri@ == or_default(v.kakao_redirect_uri, ""@)
                    &&& c.gmail_user@ == or_default(v.gmail_user, ""@)
                    &&& c.gmail_app_password@ == or_default(v.gmail_app_password, ""@)
                    &&& c.redis_url@ == or_default(v.redis_url, "redis://127.0.0.1:6379/"@)
                },
                Err(_) => true,
            },
    {
        let database_url = match v.database_url {
            Some(u) => u,
            None => return Err(ConfigError::Missing(String::from_str("DATABASE_URL"))),
        };
        let server_port = match number_setting(&v.server_port, "3000", 65535) {
            Some(n) => n as u16,
            None => return Err(ConfigError::InvalidNumber(String::from_str("SERVER_PORT"))),
        };
        let max_connections = match number_setting(&v.database_max_connections, "100", 4294967295) {
            Some(n) => n as u32,
            None => return Err(ConfigError::InvalidNumber(String::from_str("DATABASE_MAX_CONNECTIONS"))),
        };
        let min_connections = match number_setting(&v.database_min_connections, "5", 4294967295) {
            Some(n) => n as u32,
            None => return Err(ConfigError::InvalidNumber(String::from_str("DATABASE_MIN_CONNECTIONS"))),
        };
        let connect_timeout = match number_setting(&v.database_connect_timeout, "8", u64::MAX) {
            Some(n) => n,
            None => return Err(ConfigError::InvalidNumber(String::from_str("DATABASE_CONNECT_TIMEOUT"))),
        };
        let idle_timeout = match number_setting(&v.database_idle_timeout, "8", u64::MAX) {
            Some(n) => n,
            None => return Err(ConfigError::InvalidNumber(String::from_str("DATABASE_IDLE_TIMEOUT"))),
        };
        Ok(
            Config {
                database_url,
                database_max_connections: max_connections,
                database_min_connections: min_connections,
                database_connect_timeout: connect_timeout,
                database_idle_timeout: idle_timeout,
                server_host: text_setting(v.server_host, "127.0.0.1"),
                server_port,
                rust_log: text_setting(v.rust_log, "info"),
                app_env: text_setting(v.app_env, "dev"),
                kakao_client_id: text_setting(v.kakao_client_id, ""),
                kakao_redirect_uri: text_setting(v.kakao_redirect_uri, ""),
                gmail_user: text_setting(v.gmail_user, ""),
                gmail_app_password: text_setting(v.gmail_app_password, ""),
                redis_url: text_setting(v.redis_url, "redis://127.0.0.1:6379/"),
            },
        )
    }
}

} // verus!
