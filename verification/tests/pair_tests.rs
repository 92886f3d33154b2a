use binance_cli::{normalize_pair, normalize_pair_ws, remove_separators};

#[test]
fn normalizes_pair_for_api() {
    assert_eq!(normalize_pair("BTCUSDT"), "BTCUSDT");
    assert_eq!(normalize_pair("btc_usdt"), "BTCUSDT");
    assert_eq!(normalize_pair("btc-usdt"), "BTCUSDT");
    assert_eq!(normalize_pair("btc/usdt"), "BTCUSDT");
}

#[test]
fn normalizes_pair_for_websocket() {
    assert_eq!(normalize_pair_ws("BTC_USDT"), "btcusdt");
}

#[test]
fn normalizing_twice_changes_nothing() {
    let once = normalize_pair("b/t-c_usdt");
    assert_eq!(once, "BTCUSDT");
    assert_eq!(normalize_pair(&once), once);
}

#[test]
fn separators_anywhere_are_removed() {
    assert_eq!(remove_separators("/-_a_b-c/"), "abc");
    assert_eq!(remove_separators(""), "");
    assert_eq!(normalize_pair("eth/btc"), normalize_pair("ethbtc"));
}
