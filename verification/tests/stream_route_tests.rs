use binance_cli::commands::funding::FundingCommand;
use binance_cli::commands::market::MarketCommand;
use binance_cli::commands::paper::PaperCommand;
use binance_cli::commands::websocket::{
    event_type, listen_key, passes_filter, user_event_label, user_stream_url, StreamBounds,
    StreamEvent, StreamTarget, WebSocketCommand,
};
use binance_cli::errors::BinanceError;
use binance_cli::numbers::JsonField;
use binance_cli::{Command, Route, MCP_NOT_HERE, SHELL_NOT_HERE};

#[test]
fn market_stream_urls() {
    let p = WebSocketCommand::Ticker { symbol: "BTCUSDT".to_string(), limit: Some(1), seconds: Some(15) }.plan();
    match p.target {
        StreamTarget::Market { url, stream_type, symbol, label } => {
            assert_eq!(url, "wss://stream.binance.com:9443/ws/btcusdt@ticker");
            assert_eq!(stream_type, "ticker");
            assert_eq!(symbol, "btcusdt");
            assert_eq!(label, "Ticker Updates");
        }
        other => panic!("unexpected {:?}", other),
    }
    assert_eq!(p.bounds, StreamBounds::new(Some(1), Some(15)));
    let p = WebSocketCommand::BookTicker { symbol: "ethbtc".to_string(), limit: None, seconds: None }.plan();
    assert!(matches!(p.target, StreamTarget::Market { ref url, .. } if url == "wss://stream.binance.com:9443/ws/ethbtc@bookTicker"));
    let p = WebSocketCommand::Depth { symbol: "ethbtc".to_string(), limit: None, seconds: None }.plan();
    assert!(matches!(p.target, StreamTarget::Market { ref label, .. } if label == "Depth Updates"));
}

#[test]
fn market_stream_symbols_are_normalized() {
    let p = WebSocketCommand::Ticker { symbol: "btc/usdt".to_string(), limit: Some(1), seconds: Some(15) }.plan();
    match p.target {
        StreamTarget::Market { url, symbol, .. } => {
            assert_eq!(url, "wss://stream.binance.com:9443/ws/btcusdt@ticker");
            assert_eq!(symbol, "btcusdt");
        }
        other => panic!("unexpected {:?}", other),
    }
    let p = WebSocketCommand::BookTicker { symbol: "ETH-BTC".to_string(), limit: None, seconds: None }.plan();
    assert!(matches!(p.target, StreamTarget::Market { ref url, .. } if url == "wss://stream.binance.com:9443/ws/ethbtc@bookTicker"));
}

#[test]
fn user_stream_filters() {
    let p = WebSocketCommand::Orders { limit: None, seconds: None }.plan();
    assert!(matches!(p.target, StreamTarget::User { filter: Some(ref f) } if f == "executionReport"));
    let p = WebSocketCommand::Balances { limit: None, seconds: None }.plan();
    assert!(matches!(p.target, StreamTarget::User { filter: Some(ref f) } if f == "outboundAccountPosition"));
    let p = WebSocketCommand::User { limit: None, seconds: None }.plan();
    assert!(matches!(p.target, StreamTarget::User { filter: None }));
    assert!(passes_filter(&None, "balanceUpdate"));
    assert!(passes_filter(&Some("executionReport".to_string()), "executionReport"));
    assert!(!passes_filter(&Some("executionReport".to_string()), "balanceUpdate"));
}

#[test]
fn user_event_labels() {
    assert_eq!(user_event_label("outboundAccountPosition"), "Account Balance Update");
    assert_eq!(user_event_label("balanceUpdate"), "Asset Balance Update");
    assert_eq!(user_event_label("executionReport"), "Order Update");
    assert_eq!(user_event_label("listStatus"), "listStatus");
    assert_eq!(event_type(&JsonField::Text("executionReport".to_string())), "executionReport");
    assert_eq!(event_type(&JsonField::Integer(3)), "");
    assert_eq!(event_type(&JsonField::Absent), "");
}

#[test]
fn listen_keys() {
    assert_eq!(listen_key(&JsonField::Text("abc".to_string())).unwrap(), "abc");
    assert_eq!(
        listen_key(&JsonField::Absent).unwrap_err(),
        BinanceError::Api {
            code: -1,
            message: "Failed to obtain listenKey from userDataStream response".to_string()
        }
    );
    assert_eq!(user_stream_url("abc"), "wss://stream.binance.com:9443/ws/abc");
}

#[test]
fn bounded_stream_stops_at_limit() {
    let b = StreamBounds::new(Some(2), None);
    assert!(!b.limit_reached(1));
    assert!(b.limit_reached(2));
    let (c, stop) = b.after(0, StreamEvent::Data);
    assert_eq!((c, stop), (1, false));
    let (c, stop) = b.after(c, StreamEvent::Filtered);
    assert_eq!((c, stop), (1, false));
    let (c, stop) = b.after(c, StreamEvent::Ping);
    assert_eq!((c, stop), (1, false));
    let (c, stop) = b.after(c, StreamEvent::Data);
    assert_eq!((c, stop), (2, true));
    assert_eq!(StreamBounds::new(None, None).after(5, StreamEvent::Close), (5, true));
    assert_eq!(StreamBounds::new(None, None).after(5, StreamEvent::Failed), (5, true));
    assert_eq!(StreamBounds::new(None, None).after(5, StreamEvent::Data), (6, false));
    assert!(!StreamBounds::new(None, Some(3)).limit_reached(usize::MAX));
}

#[test]
fn zero_limit_reads_nothing() {
    assert!(!StreamBounds::new(Some(0), None).should_read(0));
    assert!(StreamBounds::new(Some(2), None).should_read(1));
    assert!(!StreamBounds::new(Some(2), None).should_read(2));
    assert!(StreamBounds::new(None, Some(5)).should_read(1000));
}

#[test]
fn pair_commands_are_normalized_when_routed() {
    match (Command::Ticker { pair: "btc/usdt".to_string() }).route() {
        Ok(Route::Market(MarketCommand::Ticker { symbol })) => assert_eq!(symbol, "BTCUSDT"),
        other => panic!("unexpected {:?}", other),
    }
    match (Command::Ohlc { pair: "eth-btc".to_string(), interval: "1h".to_string(), count: 5 }).route() {
        Ok(Route::Market(MarketCommand::Klines { symbol, interval, limit })) => {
            assert_eq!((symbol.as_str(), interval.as_str(), limit), ("ETHBTC", "1h", 5));
        }
        other => panic!("unexpected {:?}", other),
    }
    match (Command::HistoricalTrades { pair: "bnb_usdt".to_string(), count: 7, since: Some(3) }).route() {
        Ok(Route::Market(MarketCommand::HistoricalTrades { symbol, limit, from_id })) => {
            assert_eq!((symbol.as_str(), limit, from_id), ("BNBUSDT", 7, Some(3)));
        }
        other => panic!("unexpected {:?}", other),
    }
}

#[test]
fn withdraw_and_passthrough_routes() {
    match (Command::Withdraw {
        asset: "usdt".to_string(),
        volume: "100".to_string(),
        address: "a".to_string(),
        network: None,
    })
    .route()
    {
        Ok(Route::Funding(FundingCommand::Withdraw { coin, amount, address, network })) => {
            assert_eq!((coin.as_str(), amount.as_str(), address.as_str(), network), ("usdt", "100", "a", None));
        }
        other => panic!("unexpected {:?}", other),
    }
    assert!(matches!(Command::Paper(PaperCommand::Balance).route(), Ok(Route::Paper(PaperCommand::Balance))));
}

#[test]
fn shell_and_mcp_are_refused_here() {
    assert_eq!(Command::Shell.route().unwrap_err(), BinanceError::Config(SHELL_NOT_HERE.to_string()));
    assert_eq!(
        Command::Mcp { allow_dangerous: false }.route().unwrap_err(),
        BinanceError::Config(MCP_NOT_HERE.to_string())
    );
}
