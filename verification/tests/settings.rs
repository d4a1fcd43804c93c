use ticker_hub::hub::{serve, Delivery, SubscriberAction, HUB_CAPACITY};
use ticker_hub::settings::{
    default_binance_ws_url, default_coinbase_ws_url, default_rust_log, default_server_port,
    RawSettings, Settings, SettingsError,
};

fn nothing_given() -> RawSettings {
    RawSettings {
        server_port: None,
        binance_ws_url: None,
        coinbase_ws_url: None,
        rust_log: None,
        database_url: None,
        redis_url: None,
    }
}

#[test]
fn defaults() {
    assert_eq!(default_server_port(), 8080);
    assert_eq!(default_binance_ws_url(), "wss://stream.binance.com:9443/ws");
    assert_eq!(default_coinbase_ws_url(), "wss://ws-feed.exchange.coinbase.com");
    assert_eq!(default_rust_log(), "debug");
}

#[test]
fn settings_not_given_get_their_defaults() {
    let raw = RawSettings {
        database_url: Some("sqlite::memory:".to_string()),
        redis_url: Some("redis://127.0.0.1:6379/".to_string()),
        ..nothing_given()
    };
    assert_eq!(
        Settings::new(raw),
        Ok(Settings {
            server_port: 8080,
            binance_ws_url: "wss://stream.binance.com:9443/ws".to_string(),
            coinbase_ws_url: "wss://ws-feed.exchange.coinbase.com".to_string(),
            rust_log: "debug".to_string(),
            database_url: "sqlite::memory:".to_string(),
            redis_url: "redis://127.0.0.1:6379/".to_string(),
        })
    );
}

#[test]
fn settings_given_are_kept() {
    let raw = RawSettings {
        server_port: Some(9000),
        binance_ws_url: Some("wss://b".to_string()),
        coinbase_ws_url: Some("wss://c".to_string()),
        rust_log: Some("info".to_string()),
        database_url: Some("db".to_string()),
        redis_url: Some("redis".to_string()),
    };
    assert_eq!(
        Settings::new(raw),
        Ok(Settings {
            server_port: 9000,
            binance_ws_url: "wss://b".to_string(),
            coinbase_ws_url: "wss://c".to_string(),
            rust_log: "info".to_string(),
            database_url: "db".to_string(),
            redis_url: "redis".to_string(),
        })
    );
}

#[test]
fn missing_database_is_reported_first() {
    assert_eq!(Settings::new(nothing_given()), Err(SettingsError::MissingDatabaseUrl));
    let raw = RawSettings { redis_url: Some("redis".to_string()), ..nothing_given() };
    assert_eq!(Settings::new(raw), Err(SettingsError::MissingDatabaseUrl));
    assert_eq!(SettingsError::MissingDatabaseUrl.field(), "database_url");
}

#[test]
fn missing_store_is_reported() {
    let raw = RawSettings { database_url: Some("db".to_string()), ..nothing_given() };
    assert_eq!(Settings::new(raw), Err(SettingsError::MissingRedisUrl));
    assert_eq!(SettingsError::MissingRedisUrl.field(), "redis_url");
}

#[test]
fn payload_goes_to_the_peer_as_it_is() {
    assert_eq!(
        serve(Delivery::Payload("{\"price\":\"1\"}".to_string())),
        SubscriberAction::Forward("{\"price\":\"1\"}".to_string())
    );
}

#[test]
fn subscriber_that_fell_behind_goes_on_and_is_sent_nothing_for_the_gap() {
    assert_eq!(serve(Delivery::Lagged(3)), SubscriberAction::Skip);
    assert_eq!(serve(Delivery::Lagged(0)), SubscriberAction::Skip);
    assert_eq!(serve(Delivery::Lagged(u64::MAX)), SubscriberAction::Skip);
}

#[test]
fn subscriber_whose_hub_is_gone_is_closed() {
    assert_eq!(serve(Delivery::Closed), SubscriberAction::Close);
}

#[test]
fn slow_subscriber_is_sent_the_later_ticks_in_order() {
    let deliveries = vec![
        Delivery::Payload("1".to_string()),
        Delivery::Lagged(40),
        Delivery::Payload("42".to_string()),
        Delivery::Payload("43".to_string()),
        Delivery::Lagged(2),
        Delivery::Payload("46".to_string()),
        Delivery::Closed,
        Delivery::Payload("47".to_string()),
    ];
    let mut sent = Vec::new();
    for delivery in deliveries {
        match serve(delivery) {
            SubscriberAction::Forward(text) => sent.push(text),
            SubscriberAction::Skip => {}
            SubscriberAction::Close => break,
        }
    }
    assert_eq!(sent, vec!["1", "42", "43", "46"]);
}

#[test]
fn hub_keeps_a_hundred_ticks() {
    assert_eq!(HUB_CAPACITY, 100);
}
