//! Public market data commands: the request each command sends, the title
//! of its output, and the parsing of kline intervals.
use vstd::prelude::*;

use crate::output::ReplyDisplay;
use crate::errors::BinanceError;
use crate::text::{joined, lower_case, same_text, to_lower, to_upper, upper_case};

verus! {

#[derive(Debug)]
pub enum MarketCommand {
    /// Test connectivity to the REST API
    Ping,
    /// Get the current server time
    ServerTime,
    /// Get exchange trading rules and symbol information
    ExchangeInfo,
    /// Get 24hr ticker price change statistics
    Ticker { symbol: String },
    /// Get 24hr ticker for all symbols
    TickerAll,
    /// Get latest price for a symbol
    Price { symbol: String },
    /// Get best price/qty on the order book
    BookTicker { symbol: String },
    /// Get order book depth
    Orderbook { symbol: String, limit: u32 },
    /// Get recent trades
    Trades { symbol: String, limit: u32 },
    /// Get older historical trades (requires API key)
    HistoricalTrades { symbol: String, limit: u32, from_id: Option<u64> },
    /// Get compressed/aggregate trades
    AggTrades { symbol: String, limit: u32 },
    /// Get kline/candlestick bars for a symbol
    Klines { symbol: String, interval: String, limit: u32 },
}

/// Kline intervals of the spot API.
#[derive(Debug, Clone, Copy, PartialEq, Eq)]
pub enum KlineInterval {
    Minutes1,
    Minutes3,
    Minutes5,
    Minutes15,
    Minutes30,
    Hours1,
    Hours2,
    Hours4,
    Hours6,
    Hours8,
    Hours12,
    Days1,
    Days3,
    Weeks1,
    Months1,
}

/// The interval that a (lower-cased) name denotes.
pub open spec fn interval_named(l: Seq<char>) -> Option<KlineInterval> {
    if l == "1m"@ {
        Some(KlineInterval::Minutes1)
    } else if l == "3m"@ {
        Some(KlineInterval::Minutes3)
    } else if l == "5m"@ {
        Some(KlineInterval::Minutes5)
    } else if l == "15m"@ {
        Some(KlineInterval::Minutes15)
    } else if l == "30m"@ {
        Some(KlineInterval::Minutes30)
    } else if l == "1h"@ {
        Some(KlineInterval::Hours1)
    } else if l == "2h"@ {
        Some(KlineInterval::Hours2)
    } else if l == "4h"@ {
        Some(KlineInterval::Hours4)
    } else if l == "6h"@ {
        Some(KlineInterval::Hours6)
    } else if l == "8h"@ {
        Some(KlineInterval::Hours8)
    } else if l == "12h"@ {
        Some(KlineInterval::Hours12)
    } else if l == "1d"@ {
        Some(KlineInterval::Days1)
    } else if l == "3d"@ {
        Some(KlineInterval::Days3)
    } else if l == "1w"@ {
        Some(KlineInterval::Weeks1)
    } else if l == "1mon"@ || l == "1month"@ {
        Some(KlineInterval::Months1)
    } else {
        None
    }
}

/// The interval that a name denotes: "1M" (upper-case) is one month; any
/// other name denotes what its lower-cased form names.
pub open spec fn interval_of(s: Seq<char>) -> Option<KlineInterval> {
    if s == "1M"@ {
        Some(KlineInterval::Months1)
    } else {
        interval_named(lower_case(s))
    }
}

/// The name that the exchange gives an interval: a count and a unit, "m"
/// for minutes, "h" hours, "d" days, "w" weeks and "M" months.
pub open spec fn interval_name(i: KlineInterval) -> Seq<char> {
    match i {
        KlineInterval::Minutes1 => "1m"@,
        KlineInterval::Minutes3 => "3m"@,
        KlineInterval::Minutes5 => "5m"@,
        KlineInterval::Minutes15 => "15m"@,
        KlineInterval::Minutes30 => "30m"@,
        KlineInterval::Hours1 => "1h"@,
        KlineInterval::Hours2 => "2h"@,
        KlineInterval::Hours4 => "4h"@,
        KlineInterval::Hours6 => "6h"@,
        KlineInterval::Hours8 => "8h"@,
        KlineInterval::Hours12 => "12h"@,
        KlineInterval::Days1 => "1d"@,
        KlineInterval::Days3 => "3d"@,
        KlineInterval::Weeks1 => "1w"@,
        KlineInterval::Months1 => "1M"@,
    }
}

/// Law: a parsed interval is the one whose exchange name was written, in
/// any letter case (upper-case "1M" is the month, lower-case "1m" the
/// minute); the month may also be written "1mon" or "1month". So "1d" is a
/// day and never three days, "1h" an hour and never a minute.
pub proof fn law_parsed_interval_is_the_named_one(s: Seq<char>, r: Result<KlineInterval, BinanceError>)
    requires
        interval_parsed(s, r),
    ensures
        r matches Ok(i) ==> {
            ||| interval_name(i) == s
            ||| interval_name(i) == lower_case(s)
            ||| i == KlineInterval::Months1 && (lower_case(s) == "1mon"@ || lower_case(s) == "1month"@)
        },
{
}

/// Law: every exchange name of an interval denotes that interval: the
/// lower-case names of minutes, hours, days and weeks, "1M" for the month,
/// and "1mon" and "1month" too.
pub proof fn law_every_interval_name_parses(i: KlineInterval)
    ensures
        i != KlineInterval::Months1 ==> interval_named(interval_name(i)) == Some(i),
        interval_of("1M"@) == Some(KlineInterval::Months1),
        interval_named("1mon"@) == Some(KlineInterval::Months1),
        interval_named("1month"@) == Some(KlineInterval::Months1),
{
    reveal_strlit("1m");
    reveal_strlit("3m");
    reveal_strlit("5m");
    reveal_strlit("15m");
    reveal_strlit("30m");
    reveal_strlit("1h");
    reveal_strlit("2h");
    reveal_strlit("4h");
    reveal_strlit("6h");
    reveal_strlit("8h");
    reveal_strlit("12h");
    reveal_strlit("1d");
    reveal_strlit("3d");
    reveal_strlit("1w");
    reveal_strlit("1M");
    reveal_strlit("1mon");
    reveal_strlit("1month");
    assert("1m"@.len() == 2 && "1m"@[0] == '1' && "1m"@[1] == 'm');
    assert("3m"@.len() == 2 && "3m"@[0] == '3' && "3m"@[1] == 'm');
    assert("5m"@.len() == 2 && "5m"@[0] == '5' && "5m"@[1] == 'm');
    assert("15m"@.len() == 3 && "15m"@[0] == '1' && "15m"@[1] == '5' && "15m"@[2] == 'm');
    assert("30m"@.len() == 3 && "30m"@[0] == '3' && "30m"@[1] == '0' && "30m"@[2] == 'm');
    assert("1h"@.len() == 2 && "1h"@[0] == '1' && "1h"@[1] == 'h');
    assert("2h"@.len() == 2 && "2h"@[0] == '2' && "2h"@[1] == 'h');
    assert("4h"@.len() == 2 && "4h"@[0] == '4' && "4h"@[1] == 'h');
    assert("6h"@.len() == 2 && "6h"@[0] == '6' && "6h"@[1] == 'h');
    assert("8h"@.len() == 2 && "8h"@[0] == '8' && "8h"@[1] == 'h');
    assert("12h"@.len() == 3 && "12h"@[0] == '1' && "12h"@[1] == '2' && "12h"@[2] == 'h');
    assert("1d"@.len() == 2 && "1d"@[0] == '1' && "1d"@[1] == 'd');
    assert("3d"@.len() == 2 && "3d"@[0] == '3' && "3d"@[1] == 'd');
    assert("1w"@.len() == 2 && "1w"@[0] == '1' && "1w"@[1] == 'w');
    assert("1M"@.len() == 2 && "1M"@[0] == '1' && "1M"@[1] == 'M');
    assert("1mon"@.len() == 4 && "1mon"@[0] == '1' && "1mon"@[1] == 'm' && "1mon"@[2] == 'o' && "1mon"@[3] == 'n');
    assert("1month"@.len() == 6 && "1month"@[0] == '1' && "1month"@[1] == 'm' && "1month"@[2] == 'o' && "1month"@[3] == 'n' && "1month"@[4] == 't' && "1month"@[5] == 'h');
}

/// The outcome of parsing an interval name: the interval it denotes, or the
/// validation error naming the input.
pub open spec fn interval_parsed(s: Seq<char>, r: Result<KlineInterval, BinanceError>) -> bool {
    match interval_of(s) {
        Some(i) => r == Ok::<KlineInterval, BinanceError>(i),
        None => r matches Err(BinanceError::Validation(m)) && m@ == "Invalid kline interval: "@ + s,
    }
}

/// Parses a kline interval name, ignoring letter case except for "1M"
/// (one month), which the exact upper-case spelling tells from "1m".
pub fn parse_interval(s: &str) -> (r: Result<KlineInterval, BinanceError>)
    ensures
        interval_parsed(s@, r),
{
    if same_text(s, "1M") {
        return Ok(KlineInterval::Months1);
    }
    let lower = to_lower(s);
    let l = lower.as_str();
    if same_text(l, "1m") {
        Ok(KlineInterval::Minutes1)
    } else if same_text(l, "3m") {
        Ok(KlineInterval::Minutes3)
    } else if same_text(l, "5m") {
        Ok(KlineInterval::Minutes5)
    } else if same_text(l, "15m") {
        Ok(KlineInterval::Minutes15)
    } else if same_text(l, "30m") {
        Ok(KlineInterval::Minutes30)
    } else if same_text(l, "1h") {
        Ok(KlineInterval::Hours1)
    } else if same_text(l, "2h") {
        Ok(KlineInterval::Hours2)
    } else if same_text(l, "4h") {
        Ok(KlineInterval::Hours4)
    } else if same_text(l, "6h") {
        Ok(KlineInterval::Hours6)
    } else if same_text(l, "8h") {
        Ok(KlineInterval::Hours8)
    } else if same_text(l, "12h") {
        Ok(KlineInterval::Hours12)
    } else if same_text(l, "1d") {
        Ok(KlineInterval::Days1)
    } else if same_text(l, "3d") {
        Ok(KlineInterval::Days3)
    } else if same_text(l, "1w") {
        Ok(KlineInterval::Weeks1)
    } else if same_text(l, "1mon") || same_text(l, "1month") {
        Ok(KlineInterval::Months1)
    } else {
        Err(BinanceError::Validation(joined("Invalid kline interval: ", s)))
    }
}

/// The spot market request that a command sends, with its symbol
/// upper-cased and its interval parsed.
#[derive(Debug)]
pub enum MarketRequest {
    Ping,
    Time,
    ExchangeInfo,
    Ticker24h { symbol: Option<String> },
    TickerPrice { symbol: String },
    BookTicker { symbol: String },
    Depth { symbol: String, limit: u32 },
    Trades { symbol: String, limit: u32 },
    HistoricalTrades { symbol: String, limit: u32, from_id: Option<u64> },
    AggTrades { symbol: String, limit: u32 },
    Klines { symbol: String, interval: KlineInterval, limit: u32 },
}

/// The request of a market command and how its output is shown: the
/// title, the addendum where the command fixes it, and what the output
/// shows of the reply.
#[derive(Debug)]
pub struct MarketPlan {
    pub request: MarketRequest,
    pub title: String,
    pub addendum: Option<String>,
    pub display: ReplyDisplay,
}

/// Whether `p` is the plan of a command on `symbol` with the given request
/// shape and title prefix.
pub open spec fn titled(p: MarketPlan, prefix: Seq<char>, symbol: Seq<char>) -> bool {
    p.title@ == prefix + upper_case(symbol) && p.addendum is None && p.display == ReplyDisplay::Reply
}

pub open spec fn plain_title(p: MarketPlan, title: Seq<char>) -> bool {
    p.title@ == title && p.addendum is None && p.display == ReplyDisplay::Reply
}

/// Whether `r` is the plan of the market command `cmd`.
pub open spec fn market_planned(cmd: MarketCommand, r: Result<MarketPlan, BinanceError>) -> bool {
    match cmd {
        MarketCommand::Klines { symbol, interval, limit } => match interval_of(interval@) {
            None => r matches Err(BinanceError::Validation(m)) && m@ == "Invalid kline interval: "@
                + interval@,
            Some(i) => r matches Ok(p) && p.request matches MarketRequest::Klines { symbol: s, interval: j, limit: l } && titled(p, "Klines — "@, symbol@) && s@ == upper_case(symbol@) && j == i && l == limit,
        },
        _ => r matches Ok(p) && match cmd {
            MarketCommand::Ping => p.addendum matches Some(a) && p.request is Ping && p.title@ == "Ping"@ && a@ == "Binance API is reachable"@ && p.display == ReplyDisplay::StatusOnly,
            MarketCommand::ServerTime => p.request is Time && p.title@ == "Server Time"@ && p.addendum is None && p.display == ReplyDisplay::ServerTime,
            MarketCommand::ExchangeInfo => p.request is ExchangeInfo && plain_title(p, "Exchange Info"@),
            MarketCommand::Ticker { symbol } => p.request matches MarketRequest::Ticker24h { symbol: Some(s) } && titled(p, "24h Ticker — "@, symbol@) && s@ == upper_case(symbol@),
            MarketCommand::TickerAll => p.request matches MarketRequest::Ticker24h { symbol: None } && plain_title(p, "All Tickers (24h)"@),
            MarketCommand::Price { symbol } => p.request matches MarketRequest::TickerPrice { symbol: s } && titled(p, "Price — "@, symbol@) && s@ == upper_case(symbol@),
            MarketCommand::BookTicker { symbol } => p.request matches MarketRequest::BookTicker { symbol: s } && titled(p, "Book Ticker — "@, symbol@) && s@ == upper_case(symbol@),
            MarketCommand::Orderbook { symbol, limit } => p.request matches MarketRequest::Depth { symbol: s, limit: l } && titled(p, "Order Book — "@, symbol@) && s@ == upper_case(symbol@) && l == limit,
            MarketCommand::Trades { symbol, limit } => p.request matches MarketRequest::Trades { symbol: s, limit: l } && titled(p, "Recent Trades — "@, symbol@) && s@ == upper_case(symbol@) && l == limit,
            MarketCommand::HistoricalTrades { symbol, limit, from_id } => p.request matches MarketRequest::HistoricalTrades { symbol: s, limit: l, from_id: f } && titled(p, "Historical Trades — "@, symbol@) && s@ == upper_case(symbol@) && l == limit && f == from_id,
            MarketCommand::AggTrades { symbol, limit } => p.request matches MarketRequest::AggTrades { symbol: s, limit: l } && titled(p, "Aggregate Trades — "@, symbol@) && s@ == upper_case(symbol@) && l == limit,
            MarketCommand::Klines { .. } => false,
        },
    }
}

fn plan_of(request: MarketRequest, title: &str) -> (p: MarketPlan)
    ensures
        p.request == request,
        p.title@ == title@,
        p.addendum is None,
        p.display == ReplyDisplay::Reply,
{
    MarketPlan { request, title: String::from_str(title), addendum: None, display: ReplyDisplay::Reply }
}

/// "`prefix`SYMBOL" for the upper-cased symbol.
fn symbol_title(prefix: &str, sym: &String) -> (r: String)
    ensures
        r@ == prefix@ + sym@,
{
    joined(prefix, sym.as_str())
}

impl MarketCommand {
    /// The request that this command sends and how its output is shown, or
    /// the validation error of an unknown kline interval.
    pub fn plan(&self) -> (r: Result<MarketPlan, BinanceError>)
        ensures
            market_planned(*self, r),
    {
        match self {
            MarketCommand::Ping => Ok(
                MarketPlan {
                    request: MarketRequest::Ping,
                    title: String::from_str("Ping"),
                    addendum: Some(String::from_str("Binance API is reachable")),
                    display: ReplyDisplay::StatusOnly,
                },
            ),
            MarketCommand::ServerTime => Ok(
                MarketPlan {
                    request: MarketRequest::Time,
                    title: String::from_str("Server Time"),
                    addendum: None,
                    display: ReplyDisplay::ServerTime,
                },
            ),
            MarketCommand::ExchangeInfo => Ok(plan_of(MarketRequest::ExchangeInfo, "Exchange Info")),
            MarketCommand::Ticker { symbol } => {
                let sym = to_upper(symbol.as_str());
                let title = symbol_title("24h Ticker — ", &sym);
                Ok(MarketPlan { request: MarketRequest::Ticker24h { symbol: Some(sym) }, title, addendum: None, display: ReplyDisplay::Reply })
            },
            MarketCommand::TickerAll => Ok(
                plan_of(MarketRequest::Ticker24h { symbol: None }, "All Tickers (24h)"),
            ),
            MarketCommand::Price { symbol } => {
                let sym = to_upper(symbol.as_str());
                let title = symbol_title("Price — ", &sym);
                Ok(MarketPlan { request: MarketRequest::TickerPrice { symbol: sym }, title, addendum: None, display: ReplyDisplay::Reply })
            },
            MarketCommand::BookTicker { symbol } => {
                let sym = to_upper(symbol.as_str());
                let title = symbol_title("Book Ticker — ", &sym);
                Ok(MarketPlan { request: MarketRequest::BookTicker { symbol: sym }, title, addendum: None, display: ReplyDisplay::Reply })
            },
            MarketCommand::Orderbook { symbol, limit } => {
                let sym = to_upper(symbol.as_str());
                let title = symbol_title("Order Book — ", &sym);
                Ok(MarketPlan { request: MarketRequest::Depth { symbol: sym, limit: *limit }, title, addendum: None, display: ReplyDisplay::Reply })
            },
            MarketCommand::Trades { symbol, limit } => {
                let sym = to_upper(symbol.as_str());
                let title = symbol_title("Recent Trades — ", &sym);
                Ok(MarketPlan { request: MarketRequest::Trades { symbol: sym, limit: *limit }, title, addendum: None, display: ReplyDisplay::Reply })
            },
            MarketCommand::HistoricalTrades { symbol, limit, from_id } => {
                let sym = to_upper(symbol.as_str());
                let title = symbol_title("Historical Trades — ", &sym);
                Ok(
                    MarketPlan {
                        request: MarketRequest::HistoricalTrades { symbol: sym, limit: *limit, from_id: *from_id },
                        title,
                        addendum: None,
                        display: ReplyDisplay::Reply,
                    },
                )
            },
            MarketCommand::AggTrades { symbol, limit } => {
                let sym = to_upper(symbol.as_str());
                let title = symbol_title("Aggregate Trades — ", &sym);
                Ok(MarketPlan { request: MarketRequest::AggTrades { symbol: sym, limit: *limit }, title, addendum: None, display: ReplyDisplay::Reply })
            },
            MarketCommand::Klines { symbol, interval, limit } => {
                let sym = to_upper(symbol.as_str());
                let parsed = match parse_interval(interval.as_str()) {
                    Ok(i) => i,
                    Err(e) => return Err(e),
                };
                let title = symbol_title("Klines — ", &sym);
                Ok(
                    MarketPlan {
                        request: MarketRequest::Klines { symbol: sym, interval: parsed, limit: *limit },
                        title,
                        addendum: None,
                        display: ReplyDisplay::Reply,
                    },
                )
            },
        }
    }
}

} // verus!
