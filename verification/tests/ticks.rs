use ticker_hub::text::{join, join_dash, same_text, split_once, strip_suffix};
use ticker_hub::ws_message::{
    frame_tick, get_symbol, BinanceMessage, CoinbaseMessage, Source, WsMessage,
};

fn binance(symbol: &str, price: &str) -> WsMessage {
    WsMessage::from(BinanceMessage { s: symbol.to_string(), c: price.to_string() })
}

fn coinbase(product: &str, price: &str) -> WsMessage {
    WsMessage::from(CoinbaseMessage { product_id: product.to_string(), price: price.to_string() })
}

#[test]
fn strip_suffix_removes_the_suffix() {
    assert_eq!(strip_suffix("BTCUSDT", "USDT"), Some("BTC"));
    assert_eq!(strip_suffix("USDT", "USDT"), Some(""));
    assert_eq!(strip_suffix("BTCUSDT", ""), Some("BTCUSDT"));
}

#[test]
fn strip_suffix_refuses_what_is_no_suffix() {
    assert_eq!(strip_suffix("BTCUSDT", "BTC"), None);
    assert_eq!(strip_suffix("DT", "USDT"), None);
    assert_eq!(strip_suffix("", "USDT"), None);
}

#[test]
fn strip_suffix_counts_characters_not_bytes() {
    assert_eq!(strip_suffix("préé", "éé"), Some("pr"));
    assert_eq!(strip_suffix("é", "éé"), None);
}

#[test]
fn split_once_splits_at_the_first_separator() {
    assert_eq!(split_once("BTC-USD", '-'), Some(("BTC", "USD")));
    assert_eq!(split_once("A-B-C", '-'), Some(("A", "B-C")));
    assert_eq!(split_once("-USD", '-'), Some(("", "USD")));
    assert_eq!(split_once("BTC-", '-'), Some(("BTC", "")));
    assert_eq!(split_once("-", '-'), Some(("", "")));
}

#[test]
fn split_once_finds_nothing_without_a_separator() {
    assert_eq!(split_once("BTCUSD", '-'), None);
    assert_eq!(split_once("", '-'), None);
}

#[test]
fn same_text_compares_characters() {
    assert!(same_text("ticker", "ticker"));
    assert!(!same_text("ticker", "Ticker"));
    assert!(!same_text("ticker", "tickers"));
    assert!(same_text("", ""));
}

#[test]
fn join_dash_puts_one_dash_between() {
    assert_eq!(join_dash("BTC", "USD"), "BTC-USD");
    assert_eq!(join_dash("", ""), "-");
}

#[test]
fn join_puts_the_separator_between_neighbours() {
    let parts = vec!["a".to_string(), "b".to_string(), "c".to_string()];
    assert_eq!(join(&parts, "/"), "a/b/c");
    assert_eq!(join(&vec!["a".to_string()], "/"), "a");
    assert_eq!(join(&Vec::new(), "/"), "");
    assert_eq!(join(&vec!["".to_string(), "".to_string()], ", "), ", ");
}

#[test]
fn get_symbol_splits_before_the_quote_currency() {
    assert_eq!(get_symbol("BTCUSDT"), "BTC-USDT");
    assert_eq!(get_symbol("ETHBTC"), "ETH-BTC");
    assert_eq!(get_symbol("BNBETH"), "BNB-ETH");
    assert_eq!(get_symbol("BTCUSD"), "BTC-USD");
    assert_eq!(get_symbol("ETHUSDC"), "ETH-USDC");
    assert_eq!(get_symbol("BTCBIDR"), "BTC-BIDR");
    assert_eq!(get_symbol("BTCIDRT"), "BTC-IDRT");
    assert_eq!(get_symbol("SHIBDOGE"), "SHIB-DOGE");
}

#[test]
fn get_symbol_takes_the_first_listed_currency_that_fits() {
    // USDT stands before TRY in the list, BTC before USD.
    assert_eq!(get_symbol("TRYUSDT"), "TRY-USDT");
    assert_eq!(get_symbol("USDTTRY"), "USDT-TRY");
    assert_eq!(get_symbol("USDBTC"), "USD-BTC");
}

#[test]
fn get_symbol_of_a_bare_currency_has_an_empty_base() {
    assert_eq!(get_symbol("USDT"), "-USDT");
}

#[test]
fn get_symbol_is_empty_for_an_unknown_symbol() {
    assert_eq!(get_symbol("BTCXYZ"), "");
    assert_eq!(get_symbol(""), "");
    assert_eq!(get_symbol("btcusdt"), "");
}

#[test]
fn binance_tick_is_split_into_base_and_quote() {
    let tick = binance("BTCUSDT", "61234.50");
    assert_eq!(tick.source(), Source::Binance);
    assert_eq!(tick.base(), "BTC");
    assert_eq!(tick.quote(), "USDT");
    assert_eq!(tick.price(), "61234.50");
    assert_eq!(tick.price, "61234.50");
}

#[test]
fn binance_tick_of_an_unknown_symbol_has_empty_base_and_quote() {
    let tick = binance("BTCXYZ", "1.0");
    assert_eq!(tick.base(), "");
    assert_eq!(tick.quote(), "");
    assert_eq!(tick.price(), "1.0");
    assert_eq!(tick.get_key(), "binance--");
}

#[test]
fn binance_tick_of_a_bare_currency_has_empty_base_and_quote() {
    let tick = binance("USDT", "1.0");
    assert_eq!(tick.base(), "");
    assert_eq!(tick.quote(), "");
    assert_eq!(tick.price(), "1.0");
    assert_eq!(tick.get_key(), "binance--");
    let tick = binance("BTC", "2.0");
    assert_eq!(tick.base(), "");
    assert_eq!(tick.quote(), "");
}

#[test]
fn coinbase_tick_with_an_empty_side_has_empty_base_and_quote() {
    for product in ["-USD", "BTC-", "-", "--", "-BTC-USD"] {
        let tick = coinbase(product, "3");
        assert_eq!(tick.base(), "");
        assert_eq!(tick.quote(), "");
        assert_eq!(tick.price(), "3");
        assert_eq!(tick.get_key(), "coinbase--");
    }
}

#[test]
fn tick_names_its_pair_in_full_or_not_at_all() {
    let symbols = ["BTCUSDT", "USDT", "", "-", "A-B", "-B", "A-", "ETHBTC", "XBTC", "BTC-", "-BTC"];
    for symbol in symbols {
        let tick = binance(symbol, "1");
        assert_eq!(tick.base().is_empty(), tick.quote().is_empty());
        let tick = coinbase(symbol, "1");
        assert_eq!(tick.base().is_empty(), tick.quote().is_empty());
    }
}

#[test]
fn fields_are_what_the_getters_give() {
    let tick = binance("ETHBTC", "0.05");
    assert_eq!(tick.source, tick.source());
    assert_eq!(tick.base, tick.base());
    assert_eq!(tick.quote, tick.quote());
    assert_eq!(tick.price, tick.price());
}

#[test]
fn binance_tick_with_a_dash_in_its_symbol_splits_at_the_first_dash() {
    let tick = binance("A-BUSDT", "2");
    assert_eq!(tick.base(), "A");
    assert_eq!(tick.quote(), "B-USDT");
}

#[test]
fn coinbase_tick_is_split_at_the_first_dash() {
    let tick = coinbase("ETH-USD", "3400.12");
    assert_eq!(tick.source(), Source::Coinbase);
    assert_eq!(tick.base(), "ETH");
    assert_eq!(tick.quote(), "USD");
    assert_eq!(tick.price(), "3400.12");
}

#[test]
fn coinbase_tick_without_a_dash_has_empty_base_and_quote() {
    let tick = coinbase("ETHUSD", "3400.12");
    assert_eq!(tick.base(), "");
    assert_eq!(tick.quote(), "");
    assert_eq!(tick.price(), "3400.12");
}

#[test]
fn key_names_source_base_and_quote() {
    assert_eq!(binance("BTCUSDT", "1").get_key(), "binance-BTC-USDT");
    assert_eq!(coinbase("BTC-USD", "1").get_key(), "coinbase-BTC-USD");
}

#[test]
fn key_does_not_depend_on_the_price() {
    assert_eq!(binance("BTCUSDT", "1").get_key(), binance("BTCUSDT", "2").get_key());
}

#[test]
fn symbol_names_base_and_quote() {
    assert_eq!(binance("BTCUSDT", "1").get_symbol(), "BTC-USDT");
    assert_eq!(coinbase("ETH-EUR", "1").get_symbol(), "ETH-EUR");
}

#[test]
fn source_names() {
    assert_eq!(Source::Binance.name(), "binance");
    assert_eq!(Source::Coinbase.name(), "coinbase");
}

#[test]
fn describe_reads_as_a_log_line() {
    assert_eq!(binance("BTCUSDT", "61234.50").describe(), "(Ticker: binance - BTC-USDT - 61234.50)");
    let frame = BinanceMessage { s: "BTCUSDT".to_string(), c: "1.5".to_string() };
    assert_eq!(frame.describe(), "(Ticker: BTCUSDT - 1.5)");
    let frame = CoinbaseMessage { product_id: "BTC-USD".to_string(), price: "2.5".to_string() };
    assert_eq!(frame.describe(), "(Ticker: BTC-USD - 2.5)");
}

#[test]
fn payload_is_a_json_object_in_field_order() {
    let text = binance("BTCUSDT", "61234.50").to_json();
    assert_eq!(
        text,
        Some(r#"{"source":"binance","base":"BTC","quote":"USDT","price":"61234.50"}"#.to_string())
    );
}

#[test]
fn payload_reads_back_as_the_tick() {
    let text = coinbase("ETH-USD", "3400.12").to_json().unwrap();
    let value: serde_json::Value = serde_json::from_str(&text).unwrap();
    assert_eq!(value["source"].as_str(), Some("coinbase"));
    assert_eq!(value["base"].as_str(), Some("ETH"));
    assert_eq!(value["quote"].as_str(), Some("USD"));
    assert_eq!(value["price"].as_str(), Some("3400.12"));
    assert_eq!(value.as_object().unwrap().len(), 4);
}

#[test]
fn payload_escapes_what_json_cannot_hold_raw() {
    let tick = coinbase("A\"B-C\\D", "1\n2");
    let text = tick.to_json().unwrap();
    assert_eq!(text, r#"{"source":"coinbase","base":"A\"B","quote":"C\\D","price":"1\n2"}"#);
    let value: serde_json::Value = serde_json::from_str(&text).unwrap();
    assert_eq!(value["base"].as_str(), Some("A\"B"));
    assert_eq!(value["quote"].as_str(), Some("C\\D"));
    assert_eq!(value["price"].as_str(), Some("1\n2"));
}

#[test]
fn frame_tick_frames_the_literals_as_they_are() {
    assert_eq!(
        frame_tick("\"s\"", "\"b\"", "\"q\"", "\"p\""),
        r#"{"source":"s","base":"b","quote":"q","price":"p"}"#
    );
    assert_eq!(frame_tick("", "", "", ""), r#"{"source":,"base":,"quote":,"price":}"#);
}
