//! The settings of the service, and the values that stand in for those not given.

use vstd::prelude::*;
use vstd::string::*;

verus! {

/// The settings of the service.
#[derive(Clone, Debug, PartialEq, Eq)]
pub struct Settings {
    pub server_port: u16,
    pub binance_ws_url: String,
    pub coinbase_ws_url: String,
    pub rust_log: String,
    pub database_url: String,
    pub redis_url: String,
}

/// Another name for `Settings`.
pub type Config = Settings;

/// The settings as they were read: `None` for each that was not given.
#[derive(Clone, Debug, PartialEq, Eq)]
pub struct RawSettings {
    pub server_port: Option<u16>,
    pub binance_ws_url: Option<String>,
    pub coinbase_ws_url: Option<String>,
    pub rust_log: Option<String>,
    pub database_url: Option<String>,
    pub redis_url: Option<String>,
}

/// A setting that has to be given and was not.
#[derive(Clone, Copy, Debug, PartialEq, Eq, Structural)]
pub enum SettingsError {
    MissingDatabaseUrl,
    MissingRedisUrl,
}

/// The port that the server listens on where none is given.
pub fn default_server_port() -> (r: u16)
    ensures
        r == 8080,
{
    8080
}

/// The streaming endpoint of Binance where none is given.
pub fn default_binance_ws_url() -> (r: String)
    ensures
        r@ == "wss://stream.binance.com:9443/ws"@,
{
    String::from_str("wss://stream.binance.com:9443/ws")
}

/// The streaming endpoint of Coinbase where none is given.
pub fn default_coinbase_ws_url() -> (r: String)
    ensures
        r@ == "wss://ws-feed.exchange.coinbase.com"@,
{
    String::from_str("wss://ws-feed.exchange.coinbase.com")
}

/// The log filter where none is given.
pub fn default_rust_log() -> (r: String)
    ensures
        r@ == "debug"@,
{
    String::from_str("debug")
}

/// The text of a setting: the one given, or else `fallback`.
pub open spec fn text_or(given: Option<String>, fallback: Seq<char>) -> Seq<char> {
    match given {
        Some(text) => text@,
        None => fallback,
    }
}

impl SettingsError {
    /// The name of the setting that is missing.
    pub fn field(self) -> (r: &'static str)
        ensures
            r@ == match self {
                SettingsError::MissingDatabaseUrl => "database_url"@,
                SettingsError::MissingRedisUrl => "redis_url"@,
            },
    {
        match self {
            SettingsError::MissingDatabaseUrl => "database_url",
            SettingsError::MissingRedisUrl => "redis_url",
        }
    }
}

impl Settings {
    /// Completes the settings that were read. The address of the database and that
    /// of the store have to be given, and the first of them that is missing is
    /// reported; each other setting that was not given gets its default.
    pub fn new(raw: RawSettings) -> (r: Result<Settings, SettingsError>)
        ensures
            match r {
                Ok(settings) => {
                    &&& settings.server_port == match raw.server_port {
                        Some(port) => port,
                        None => 8080u16,
                    }
                    &&& settings.binance_ws_url@ == text_or(
                        raw.binance_ws_url,
                        "wss://stream.binance.com:9443/ws"@,
                    )
                    &&& settings.coinbase_ws_url@ == text_or(
                        raw.coinbase_ws_url,
                        "wss://ws-feed.exchange.coinbase.com"@,
                    )
                    &&& settings.rust_log@ == text_or(raw.rust_log, "debug"@)
                    &&& raw.database_url == Some(settings.database_url)
                    &&& raw.redis_url == Some(settings.redis_url)
                },
                Err(SettingsError::MissingDatabaseUrl) => raw.database_url is None,
                Err(SettingsError::MissingRedisUrl) => raw.database_url is Some
                    && raw.redis_url is None,
            },
    {
        let database_url = match raw.database_url {
            Some(url) => url,
            None => { return Err(SettingsError::MissingDatabaseUrl); },
        };
        let redis_url = match raw.redis_url {
            Some(url) => url,
            None => { return Err(SettingsError::MissingRedisUrl); },
        };
        Ok(
            Settings {
                server_port: match raw.server_port {
                    Some(port) => port,
                    None => default_server_port(),
                },
                binance_ws_url: match raw.binance_ws_url {
                    Some(url) => url,
                    None => default_binance_ws_url(),
                },
                coinbase_ws_url: match raw.coinbase_ws_url {
                    Some(url) => url,
                    None => default_coinbase_ws_url(),
                },
                rust_log: match raw.rust_log {
                    Some(filter) => filter,
                    None => default_rust_log(),
                },
                database_url,
                redis_url,
            },
        )
    }
}

} // verus!
