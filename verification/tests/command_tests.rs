use binance_cli::commands::account::{AccountCommand, AccountRequest};
use binance_cli::commands::funding::{FundingCommand, FundingRequest};
use binance_cli::commands::market::{parse_interval, KlineInterval, MarketCommand, MarketRequest};
use binance_cli::commands::paper::PaperCommand;
use binance_cli::commands::trade::{order_addendum, plan_order, Side, TradeCommand, TradeRequest};
use binance_cli::config::Credentials;
use binance_cli::errors::BinanceError;
use binance_cli::numbers::DecimalValue;
use binance_cli::output::ReplyDisplay;

#[test]
fn intervals_ignore_case() {
    assert_eq!(parse_interval("1m").unwrap(), KlineInterval::Minutes1);
    assert_eq!(parse_interval("4H").unwrap(), KlineInterval::Hours4);
    assert_eq!(parse_interval("1w").unwrap(), KlineInterval::Weeks1);
    assert_eq!(parse_interval("1month").unwrap(), KlineInterval::Months1);
    assert_eq!(parse_interval("1MON").unwrap(), KlineInterval::Months1);
    // Upper-case "1M" is one month; lower-case "1m" is one minute.
    assert_eq!(parse_interval("1M").unwrap(), KlineInterval::Months1);
    assert_eq!(
        parse_interval("7m").unwrap_err(),
        BinanceError::Validation("Invalid kline interval: 7m".to_string())
    );
}

#[test]
fn market_plans() {
    let p = MarketCommand::Ticker { symbol: "btcusdt".to_string() }.plan().unwrap();
    assert_eq!(p.title, "24h Ticker — BTCUSDT");
    assert!(matches!(p.request, MarketRequest::Ticker24h { symbol: Some(ref s) } if s == "BTCUSDT"));
    let p = MarketCommand::Ping.plan().unwrap();
    assert_eq!(p.title, "Ping");
    assert_eq!(p.addendum.as_deref(), Some("Binance API is reachable"));
    assert_eq!(p.display, ReplyDisplay::StatusOnly);
    let p = MarketCommand::ServerTime.plan().unwrap();
    assert_eq!(p.title, "Server Time");
    assert_eq!(p.addendum, None);
    assert_eq!(p.display, ReplyDisplay::ServerTime);
    let p = MarketCommand::TickerAll.plan().unwrap();
    assert_eq!(p.display, ReplyDisplay::Reply);
    assert_eq!(p.title, "All Tickers (24h)");
    let p = MarketCommand::Klines { symbol: "ethbtc".to_string(), interval: "15m".to_string(), limit: 5 }
        .plan()
        .unwrap();
    assert_eq!(p.title, "Klines — ETHBTC");
    assert!(matches!(p.request, MarketRequest::Klines { interval: KlineInterval::Minutes15, limit: 5, .. }));
    let e = MarketCommand::Klines { symbol: "ethbtc".to_string(), interval: "2m".to_string(), limit: 5 }
        .plan()
        .unwrap_err();
    assert_eq!(e, BinanceError::Validation("Invalid kline interval: 2m".to_string()));
    let p = MarketCommand::HistoricalTrades { symbol: "bnbusdt".to_string(), limit: 5, from_id: Some(9) }
        .plan()
        .unwrap();
    assert_eq!(p.title, "Historical Trades — BNBUSDT");
    assert!(matches!(p.request, MarketRequest::HistoricalTrades { limit: 5, from_id: Some(9), .. }));
}

#[test]
fn limit_order_needs_a_price() {
    let e = plan_order("btcusdt", Side::Buy, "limit", &None, "0.005", &None).unwrap_err();
    assert_eq!(e, BinanceError::Validation("Price is required for LIMIT orders".to_string()));
}

#[test]
fn order_quantity_and_price_validation() {
    match plan_order("btcusdt", Side::Buy, "LIMIT", &Some("76500".to_string()), "abc", &None) {
        Err(BinanceError::Validation(m)) => assert!(m.starts_with("Invalid quantity 'abc': "), "{}", m),
        other => panic!("unexpected {:?}", other),
    }
    match plan_order("btcusdt", Side::Buy, "LIMIT", &Some("x1".to_string()), "1", &None) {
        Err(BinanceError::Validation(m)) => assert!(m.starts_with("Invalid price 'x1': "), "{}", m),
        other => panic!("unexpected {:?}", other),
    }
}

#[test]
fn valid_orders() {
    let o = plan_order("btcusdt", Side::Buy, "limit", &Some("76500".to_string()), "0.005", &Some("c1".to_string()))
        .unwrap();
    assert_eq!(o.symbol, "BTCUSDT");
    assert_eq!(o.order_type, "LIMIT");
    assert_eq!(o.quantity, DecimalValue { mantissa: 5, scale: 3, negative: false });
    assert_eq!(o.limit_price, Some(DecimalValue { mantissa: 76500, scale: 0, negative: false }));
    assert_eq!(o.client_order_id.as_deref(), Some("c1"));
    let m = plan_order("btcusdt", Side::Sell, "market", &Some("x".to_string()), "0.002", &None).unwrap();
    assert_eq!(m.order_type, "MARKET");
    assert_eq!(m.limit_price, None);
    assert_eq!(m.side, Side::Sell);
}

#[test]
fn order_addenda() {
    assert_eq!(
        order_addendum(Side::Buy, "0.005", "BTCUSDT", &Some("76500.00".to_string()), &Some("76500".to_string()), &Some("12".to_string())),
        Some("BUY 0.005 BTCUSDT @ 76500.00 — Order ID: 12".to_string())
    );
    assert_eq!(
        order_addendum(Side::Sell, "1", "ETHBTC", &None, &None, &Some("7".to_string())),
        Some("SELL 1 ETHBTC @ MARKET — Order ID: 7".to_string())
    );
    assert_eq!(order_addendum(Side::Sell, "1", "ETHBTC", &None, &None, &None), None);
}

#[test]
fn trade_plans() {
    let p = TradeCommand::Cancel { symbol: "btcusdt".to_string(), order_id: 1872651 }.plan().unwrap();
    assert_eq!(p.title, "Cancel Result");
    assert_eq!(p.addendum.as_deref(), Some("Order 1872651 cancelled"));
    assert!(matches!(p.request, TradeRequest::CancelOrder { order_id: 1872651, .. }));
    let p = TradeCommand::CancelAll { symbol: "btcusdt".to_string() }.plan().unwrap();
    assert_eq!(p.title, "Cancel All Open Orders — BTCUSDT");
    assert_eq!(p.addendum.as_deref(), Some("All open orders for BTCUSDT cancelled successfully"));
    let p = TradeCommand::Query { symbol: "btcusdt".to_string(), order_id: 3 }.plan().unwrap();
    assert_eq!(p.title, "Order 3 — BTCUSDT");
    let p = TradeCommand::OpenOrders { symbol: None }.plan().unwrap();
    assert_eq!(p.title, "Open Orders (All Symbols)");
    let p = TradeCommand::OpenOrders { symbol: Some("ethbtc".to_string()) }.plan().unwrap();
    assert_eq!(p.title, "Open Orders — ETHBTC");
    let p = TradeCommand::AllOrders { symbol: "ethbtc".to_string(), order_id: None, limit: 5 }.plan().unwrap();
    assert_eq!(p.title, "All Orders — ETHBTC");
    let p = TradeCommand::Buy {
        symbol: "btcusdt".to_string(),
        order_type: "MARKET".to_string(),
        price: None,
        quantity: "1".to_string(),
        client_order_id: None,
    }
    .plan()
    .unwrap();
    assert_eq!(p.title, "Order Result");
    assert!(matches!(p.request, TradeRequest::NewOrder(ref o) if o.side == Side::Buy));
    assert!(TradeCommand::Sell {
        symbol: "btcusdt".to_string(),
        order_type: "LIMIT".to_string(),
        price: None,
        quantity: "1".to_string(),
        client_order_id: None,
    }
    .plan()
    .is_err());
}

#[test]
fn funding_plans() {
    let p = FundingCommand::Withdraw {
        coin: "usdt".to_string(),
        amount: "100".to_string(),
        address: "addr".to_string(),
        network: Some("ETH".to_string()),
    }
    .plan()
    .unwrap();
    assert_eq!(p.title, "Withdrawal Submitted");
    assert_eq!(p.addendum.as_deref(), Some("Withdrawal request of 100 USDT submitted successfully"));
    assert!(matches!(p.request, FundingRequest::Withdraw { ref coin, amount: DecimalValue { mantissa: 100, scale: 0, negative: false }, .. } if coin == "USDT"));
    let bad = FundingCommand::Withdraw {
        coin: "usdt".to_string(),
        amount: "lots".to_string(),
        address: "addr".to_string(),
        network: None,
    };
    match bad.plan()
    {
        Err(BinanceError::Validation(m)) => assert!(m.starts_with("Invalid amount 'lots': ")),
        other => panic!("unexpected {:?}", other),
    }
    let p = FundingCommand::DepositAddress { coin: "bnb".to_string(), network: None }.plan().unwrap();
    assert_eq!(p.title, "Deposit Address — BNB");
    let p = FundingCommand::DepositHistory { coin: Some("usdt".to_string()) }.plan().unwrap();
    assert!(matches!(p.request, FundingRequest::DepositHistory { coin: Some(ref c) } if c == "USDT"));
    assert_eq!(p.title, "Deposit History");
    let p = FundingCommand::WithdrawHistory { coin: None }.plan().unwrap();
    assert_eq!(p.title, "Withdrawal History");
}

#[test]
fn account_plans() {
    let p = AccountCommand::Balance.plan();
    assert_eq!(p.request, AccountRequest::Account { omit_zero_balances: true });
    assert_eq!(
        AccountCommand::balance_output(true),
        (ReplyDisplay::BalancesOnly, "Account Balances".to_string())
    );
    assert_eq!(AccountCommand::balance_output(false), (ReplyDisplay::Reply, "Account Info".to_string()));
    let p = AccountCommand::Trades { symbol: "btcusdt".to_string(), limit: 5, from_id: None }.plan();
    assert_eq!(p.title, "My Trades — BTCUSDT");
    let p = AccountCommand::Info.plan();
    assert_eq!(p.title, "Account Info");
    assert_eq!(p.request, AccountRequest::Account { omit_zero_balances: false });
}

#[test]
fn paper_balances() {
    let b = PaperCommand::Balance.balances();
    let view: Vec<(&str, &str, &str)> =
        b.iter().map(|x| (x.asset.as_str(), x.free.as_str(), x.locked.as_str())).collect();
    assert_eq!(view, vec![("USDT", "10000.0", "0.0"), ("BTC", "1.0", "0.0"), ("BNB", "10.0", "0.0")]);
    assert_eq!(PaperCommand::Balance.title(), "Paper Balances");
    assert_eq!(PaperCommand::Balance.addendum(), "Paper trading is currently a simulated stub.");
}

#[test]
fn missing_credentials_come_before_order_checks() {
    let bad_order = TradeCommand::Sell {
        symbol: "btcusdt".to_string(),
        order_type: "LIMIT".to_string(),
        price: None,
        quantity: "abc".to_string(),
        client_order_id: None,
    };
    assert_eq!(
        bad_order.plan_authorized(&None).unwrap_err(),
        BinanceError::Auth("API credentials required for this endpoint".to_string())
    );
    let creds = Some(Credentials { api_key: "k".to_string(), api_secret: "s".to_string() });
    assert!(matches!(bad_order.plan_authorized(&creds), Err(BinanceError::Validation(_))));
    let p = TradeCommand::OpenOrders { symbol: None }.plan_authorized(&creds).unwrap();
    assert_eq!(p.title, "Open Orders (All Symbols)");
    assert_eq!(
        TradeCommand::OpenOrders { symbol: None }.plan_authorized(&None).unwrap_err(),
        BinanceError::Auth("API credentials required for this endpoint".to_string())
    );
    let bad_withdrawal = FundingCommand::Withdraw {
        coin: "usdt".to_string(),
        amount: "lots".to_string(),
        address: "addr".to_string(),
        network: None,
    };
    assert_eq!(
        bad_withdrawal.plan_authorized(&None).unwrap_err(),
        BinanceError::Auth("API credentials required for this endpoint".to_string())
    );
    assert!(matches!(bad_withdrawal.plan_authorized(&creds), Err(BinanceError::Validation(_))));
    let p = FundingCommand::WithdrawHistory { coin: None }.plan_authorized(&creds).unwrap();
    assert_eq!(p.title, "Withdrawal History");
}

#[test]
fn trade_symbols_are_normalized() {
    let p = TradeCommand::Cancel { symbol: "btc/usdt".to_string(), order_id: 7 }.plan().unwrap();
    assert!(matches!(p.request, TradeRequest::CancelOrder { ref symbol, order_id: 7 } if symbol == "BTCUSDT"));
    let p = TradeCommand::CancelAll { symbol: "eth-btc".to_string() }.plan().unwrap();
    assert_eq!(p.title, "Cancel All Open Orders — ETHBTC");
    let p = TradeCommand::OpenOrders { symbol: Some("bnb_usdt".to_string()) }.plan().unwrap();
    assert_eq!(p.title, "Open Orders — BNBUSDT");
    let p = TradeCommand::Query { symbol: "btc/usdt".to_string(), order_id: 3 }.plan().unwrap();
    assert_eq!(p.title, "Order 3 — BTCUSDT");
    let p = TradeCommand::AllOrders { symbol: "btc/usdt".to_string(), order_id: None, limit: 5 }.plan().unwrap();
    assert!(matches!(p.request, TradeRequest::AllOrders { ref symbol, .. } if symbol == "BTCUSDT"));
    let o = plan_order("btc/usdt", Side::Buy, "market", &None, "0.5", &None).unwrap();
    assert_eq!(o.symbol, "BTCUSDT");
    assert_eq!(o.order_type, "MARKET");
}
