//! A command-line client library for the Binance spot and USDS-M futures
//! exchange: command routing, request planning and signing, credential
//! resolution, configuration defaults and error classification.
pub mod commands;
pub mod config;
pub mod errors;
pub mod numbers;
pub mod output;
pub mod text;

use vstd::prelude::*;

use crate::commands::account::AccountCommand;
use crate::commands::funding::FundingCommand;
use crate::commands::futures::FuturesCommand;
use crate::commands::market::MarketCommand;
use crate::commands::paper::PaperCommand;
use crate::commands::trade::TradeCommand;
use crate::commands::websocket::WebSocketCommand;
use crate::errors::BinanceError;
use crate::output::OutputFormat;
use crate::text::{ascii_lower, ascii_upper, lower_case, push_char, to_lower, to_upper, upper_case};

verus! {

/// The separators that users may write between the two assets of a pair.
pub open spec fn is_separator(c: char) -> bool {
    c == '_' || c == '-' || c == '/'
}

/// The text with every separator removed, other characters kept in order.
pub open spec fn strip_separators(s: Seq<char>) -> Seq<char>
    decreases s.len(),
{
    if s.len() == 0 {
        Seq::<char>::empty()
    } else {
        let rest = strip_separators(s.drop_last());
        if is_separator(s.last()) {
            rest
        } else {
            rest.push(s.last())
        }
    }
}

/// The symbol that the REST API expects for a pair as users write it.
pub open spec fn api_symbol(pair: Seq<char>) -> Seq<char> {
    upper_case(strip_separators(pair))
}

/// The symbol that the WebSocket streams expect for a pair.
pub open spec fn stream_symbol(pair: Seq<char>) -> Seq<char> {
    lower_case(api_symbol(pair))
}

/// Every character left by `strip_separators` is a character of the input
/// that is not a separator.
pub proof fn lemma_strip_separators_chars(s: Seq<char>)
    ensures
        forall|i: int|
            0 <= i < strip_separators(s).len() ==> !is_separator(#[trigger] strip_separators(s)[i])
                && s.contains(strip_separators(s)[i]),
    decreases s.len(),
{
    if s.len() > 0 {
        lemma_strip_separators_chars(s.drop_last());
        let rest = strip_separators(s.drop_last());
        assert forall|i: int|
            0 <= i < strip_separators(s).len() implies !is_separator(
            #[trigger] strip_separators(s)[i],
        ) && s.contains(strip_separators(s)[i]) by {
            if i < rest.len() {
                let c = rest[i];
                assert(s.drop_last().contains(c));
                let k = choose|k: int| 0 <= k < s.drop_last().len() && s.drop_last()[k] == c;
                assert(s[k] == c);
            } else {
                assert(s[s.len() - 1] == s.last());
            }
        }
    }
}

/// Stripping keeps ASCII text ASCII.
pub proof fn lemma_strip_separators_ascii(s: Seq<char>)
    requires
        vstd::utf8::is_ascii_chars(s),
    ensures
        vstd::utf8::is_ascii_chars(strip_separators(s)),
{
    lemma_strip_separators_chars(s);
    assert forall|i| 0 <= i < strip_separators(s).len() implies '\0' <= #[trigger] strip_separators(
        s,
    )[i] <= '\u{7f}' by {
        let c = strip_separators(s)[i];
        assert(s.contains(c));
    }
}

/// Stripping a concatenation strips each part.
pub proof fn lemma_strip_separators_concat(a: Seq<char>, b: Seq<char>)
    ensures
        strip_separators(a + b) == strip_separators(a) + strip_separators(b),
    decreases b.len(),
{
    if b.len() == 0 {
        assert(a + b =~= a);
        assert(strip_separators(a) + strip_separators(b) =~= strip_separators(a));
    } else {
        lemma_strip_separators_concat(a, b.drop_last());
        assert((a + b).drop_last() =~= a + b.drop_last());
        assert((a + b).last() == b.last());
        if is_separator(b.last()) {
        } else {
            assert(strip_separators(a) + strip_separators(b.drop_last()).push(b.last()) =~= (
            strip_separators(a) + strip_separators(b.drop_last())).push(b.last()));
        }
    }
}

/// Text without separators is left as it is by stripping.
pub proof fn lemma_strip_separators_noop(s: Seq<char>)
    requires
        forall|i: int| 0 <= i < s.len() ==> !is_separator(#[trigger] s[i]),
    ensures
        strip_separators(s) == s,
    decreases s.len(),
{
    if s.len() > 0 {
        lemma_strip_separators_noop(s.drop_last());
        assert(s.drop_last().push(s.last()) =~= s);
        assert(!is_separator(s[s.len() - 1]));
    }
}

/// Law: a separator written anywhere in a pair does not change the symbol
/// that it names, so "btc/usdt", "btc_usdt", "btc-usdt" and "btcusdt" all name
/// the same REST symbol.
pub proof fn law_separators_do_not_change_symbol(a: Seq<char>, b: Seq<char>, sep: char)
    requires
        is_separator(sep),
    ensures
        api_symbol(a + seq![sep] + b) == api_symbol(a + b),
        stream_symbol(a + seq![sep] + b) == stream_symbol(a + b),
{
    lemma_strip_separators_concat(a + seq![sep], b);
    lemma_strip_separators_concat(a, seq![sep]);
    lemma_strip_separators_concat(a, b);
    assert(seq![sep].drop_last() =~= Seq::<char>::empty());
    assert(seq![sep].last() == sep);
    assert(strip_separators(Seq::<char>::empty()) == Seq::<char>::empty());
    assert(strip_separators(seq![sep]) =~= Seq::<char>::empty());
    assert(strip_separators(a) + Seq::<char>::empty() =~= strip_separators(a));
}

/// Law: on ASCII input the normalized symbol holds no separator, and
/// normalizing it again gives it back unchanged.
pub proof fn law_normalized_symbol_is_stable(pair: Seq<char>)
    requires
        vstd::utf8::is_ascii_chars(pair),
    ensures
        forall|i: int|
            0 <= i < ascii_upper(strip_separators(pair)).len() ==> !is_separator(
                #[trigger] ascii_upper(strip_separators(pair))[i],
            ),
        ascii_upper(strip_separators(ascii_upper(strip_separators(pair)))) == ascii_upper(
            strip_separators(pair),
        ),
{
    let t = ascii_upper(strip_separators(pair));
    lemma_strip_separators_chars(pair);
    assert forall|i: int| 0 <= i < t.len() implies !is_separator(#[trigger] t[i]) by {
        assert(!is_separator(strip_separators(pair)[i]));
    }
    lemma_strip_separators_noop(t);
    assert(ascii_upper(t) =~= t);
}

/// Removes every '_', '-' and '/' from the text.
pub fn remove_separators(pair: &str) -> (r: String)
    ensures
        r@ == strip_separators(pair@),
{
    let n = pair.unicode_len();
    let mut out = String::new();
    let mut i: usize = 0;
    while i < n
        invariant
            n == pair@.len(),
            i <= n,
            out@ == strip_separators(pair@.take(i as int)),
        decreases n - i,
    {
        let c = pair.get_char(i);
        assert(pair@.take(i + 1).drop_last() =~= pair@.take(i as int));
        if !(c == '_' || c == '-' || c == '/') {
            push_char(&mut out, c);
        }
        i += 1;
    }
    assert(pair@.take(n as int) =~= pair@);
    out
}

/// Normalizes a pair as users write it ("btc/usdt", "btc_usdt", "btc-usdt")
/// into the REST API symbol ("BTCUSDT").
pub fn normalize_pair(pair: &str) -> (r: String)
    ensures
        r@ == api_symbol(pair@),
        vstd::utf8::is_ascii_chars(pair@) ==> r@ == ascii_upper(strip_separators(pair@)),
{
    let stripped = remove_separators(pair);
    proof {
        if vstd::utf8::is_ascii_chars(pair@) {
            lemma_strip_separators_ascii(pair@);
        }
    }
    to_upper(stripped.as_str())
}

/// Normalizes a pair into the lower-case symbol of the WebSocket streams.
pub fn normalize_pair_ws(pair: &str) -> (r: String)
    ensures
        r@ == stream_symbol(pair@),
        vstd::utf8::is_ascii_chars(pair@) ==> r@ == ascii_lower(strip_separators(pair@)),
{
    let upper = normalize_pair(pair);
    proof {
        if vstd::utf8::is_ascii_chars(pair@) {
            lemma_strip_separators_ascii(pair@);
            crate::text::lemma_ascii_upper_is_ascii(strip_separators(pair@));
            crate::text::lemma_ascii_lower_of_upper(strip_separators(pair@));
        }
    }
    to_lower(upper.as_str())
}


/// The command line: global options and the command.
#[derive(Debug)]
pub struct Cli {
    /// Output format: table or json
    pub output: OutputFormat,
    /// API key (overrides config and env var)
    pub api_key: Option<String>,
    /// API secret (overrides config and env var)
    pub api_secret: Option<String>,
    /// Enable verbose output
    pub verbose: bool,
    /// Skip confirmation prompts for destructive operations
    pub yes: bool,
    /// Override API host URL
    pub host: Option<String>,
    pub command: Command,
}

/// The commands of the command line. Pairs may be written with a separator
/// ("btc/usdt", "btc_usdt", "btc-usdt").
#[derive(Debug)]
pub enum Command {
    /// Test connectivity to the REST API
    Ping,
    /// Get the current server time
    ServerTime,
    /// Get exchange trading rules and symbol information
    ExchangeInfo,
    /// Get 24hr ticker price change statistics
    Ticker { pair: String },
    /// Get 24hr ticker for all symbols
    TickerAll,
    /// Get latest price for a symbol
    Price { pair: String },
    /// Get best price/qty on the order book
    BookTicker { pair: String },
    /// Get order book depth
    Orderbook { pair: String, count: u32 },
    /// Get recent trades
    Trades { pair: String, count: u32 },
    /// Get older historical trades (requires API key)
    HistoricalTrades { pair: String, count: u32, since: Option<u64> },
    /// Get compressed/aggregate trades
    AggTrades { pair: String, count: u32 },
    /// Get kline/candlestick bars for a symbol (OHLC)
    Ohlc { pair: String, interval: String, count: u32 },
    /// Get current account information (balances, permissions, etc.)
    AccountInfo,
    /// Get non-zero account balances
    Balance,
    /// Get your trade history for a specific symbol
    TradesHistory { pair: String, count: u32, since: Option<u64> },
    /// Place and manage orders
    Order(TradeCommand),
    /// Manage deposits
    Deposit(FundingCommand),
    /// Withdraw crypto to an external address
    Withdraw { asset: String, volume: String, address: String, network: Option<String> },
    /// Manage withdrawals
    Withdrawal(FundingCommand),
    /// WebSocket real-time data streams
    Ws(WebSocketCommand),
    /// Paper trading (simulated)
    Paper(PaperCommand),
    /// Binance Futures (USDS-M)
    Futures(FuturesCommand),
    /// Interactive shell (REPL)
    Shell,
    /// Run as an MCP (Model Context Protocol) server
    Mcp { allow_dangerous: bool },
}

/// The executor that a command is handed to.
#[derive(Debug)]
pub enum Route {
    Market(MarketCommand),
    Account(AccountCommand),
    Trade(TradeCommand),
    Funding(FundingCommand),
    Stream(WebSocketCommand),
    Paper(PaperCommand),
    Futures(FuturesCommand),
}

/// The error text for a shell command outside the entry point.
pub const SHELL_NOT_HERE: &'static str = "Shell command is not supported in this context";

/// The error text for an MCP server command outside the entry point.
pub const MCP_NOT_HERE: &'static str = "MCP server must be started from the main entry point";

/// Whether `r` is where the command `cmd` is dispatched: market and account
/// commands with their pair normalized to the REST symbol, the count as the
/// limit and `since` as the first trade id; the order, funding, stream,
/// paper and futures commands as they are; the shell and the MCP server
/// refused with a configuration error.
pub open spec fn routed(cmd: Command, r: Result<Route, BinanceError>) -> bool {
    match cmd {
        Command::Ping => r matches Ok(Route::Market(MarketCommand::Ping)),
        Command::ServerTime => r matches Ok(Route::Market(MarketCommand::ServerTime)),
        Command::ExchangeInfo => r matches Ok(Route::Market(MarketCommand::ExchangeInfo)),
        Command::Ticker { pair } => r matches Ok(Route::Market(MarketCommand::Ticker { symbol }))
            && symbol@ == api_symbol(pair@),
        Command::TickerAll => r matches Ok(Route::Market(MarketCommand::TickerAll)),
        Command::Price { pair } => r matches Ok(Route::Market(MarketCommand::Price { symbol }))
            && symbol@ == api_symbol(pair@),
        Command::BookTicker { pair } => r matches Ok(
            Route::Market(MarketCommand::BookTicker { symbol }),
        ) && symbol@ == api_symbol(pair@),
        Command::Orderbook { pair, count } => r matches Ok(
            Route::Market(MarketCommand::Orderbook { symbol, limit }),
        ) && symbol@ == api_symbol(pair@) && limit == count,
        Command::Trades { pair, count } => r matches Ok(
            Route::Market(MarketCommand::Trades { symbol, limit }),
        ) && symbol@ == api_symbol(pair@) && limit == count,
        Command::HistoricalTrades { pair, count, since } => r matches Ok(
            Route::Market(MarketCommand::HistoricalTrades { symbol, limit, from_id }),
        ) && symbol@ == api_symbol(pair@) && limit == count && from_id == since,
        Command::AggTrades { pair, count } => r matches Ok(
            Route::Market(MarketCommand::AggTrades { symbol, limit }),
        ) && symbol@ == api_symbol(pair@) && limit == count,
        Command::Ohlc { pair, interval, count } => r matches Ok(
            Route::Market(MarketCommand::Klines { symbol, interval: i, limit }),
        ) && symbol@ == api_symbol(pair@) && i == interval && limit == count,
        Command::AccountInfo => r matches Ok(Route::Account(AccountCommand::Info)),
        Command::Balance => r matches Ok(Route::Account(AccountCommand::Balance)),
        Command::TradesHistory { pair, count, since } => r matches Ok(
            Route::Account(AccountCommand::Trades { symbol, limit, from_id }),
        ) && symbol@ == api_symbol(pair@) && limit == count && from_id == since,
        Command::Order(c) => r == Ok::<Route, BinanceError>(Route::Trade(c)),
        Command::Deposit(c) => r == Ok::<Route, BinanceError>(Route::Funding(c)),
        Command::Withdraw { asset, volume, address, network } => r == Ok::<Route, BinanceError>(
            Route::Funding(FundingCommand::Withdraw { coin: asset, amount: volume, address, network }),
        ),
        Command::Withdrawal(c) => r == Ok::<Route, BinanceError>(Route::Funding(c)),
        Command::Ws(c) => r == Ok::<Route, BinanceError>(Route::Stream(c)),
        Command::Paper(c) => r == Ok::<Route, BinanceError>(Route::Paper(c)),
        Command::Futures(c) => r == Ok::<Route, BinanceError>(Route::Futures(c)),
        Command::Shell => r matches Err(BinanceError::Config(m)) && m@ == SHELL_NOT_HERE@,
        Command::Mcp { .. } => r matches Err(BinanceError::Config(m)) && m@ == MCP_NOT_HERE@,
    }
}

/// The pair that a market or account command names, as the user wrote it.
pub open spec fn command_pair(cmd: Command) -> Option<Seq<char>> {
    match cmd {
        Command::Ticker { pair } => Some(pair@),
        Command::Price { pair } => Some(pair@),
        Command::BookTicker { pair } => Some(pair@),
        Command::Orderbook { pair, .. } => Some(pair@),
        Command::Trades { pair, .. } => Some(pair@),
        Command::HistoricalTrades { pair, .. } => Some(pair@),
        Command::AggTrades { pair, .. } => Some(pair@),
        Command::Ohlc { pair, .. } => Some(pair@),
        Command::TradesHistory { pair, .. } => Some(pair@),
        _ => None,
    }
}

/// The number of entries that a command asks for, where it asks.
pub open spec fn command_count(cmd: Command) -> Option<u32> {
    match cmd {
        Command::Orderbook { count, .. } => Some(count),
        Command::Trades { count, .. } => Some(count),
        Command::HistoricalTrades { count, .. } => Some(count),
        Command::AggTrades { count, .. } => Some(count),
        Command::Ohlc { count, .. } => Some(count),
        Command::TradesHistory { count, .. } => Some(count),
        _ => None,
    }
}

/// The trade id that a command starts from (`--since`), where it takes one.
pub open spec fn command_since(cmd: Command) -> Option<Option<u64>> {
    match cmd {
        Command::HistoricalTrades { since, .. } => Some(since),
        Command::TradesHistory { since, .. } => Some(since),
        _ => None,
    }
}

/// The symbol that a routed command acts on, where it names one.
pub open spec fn route_symbol(r: Route) -> Option<Seq<char>> {
    match r {
        Route::Market(MarketCommand::Ticker { symbol }) => Some(symbol@),
        Route::Market(MarketCommand::Price { symbol }) => Some(symbol@),
        Route::Market(MarketCommand::BookTicker { symbol }) => Some(symbol@),
        Route::Market(MarketCommand::Orderbook { symbol, .. }) => Some(symbol@),
        Route::Market(MarketCommand::Trades { symbol, .. }) => Some(symbol@),
        Route::Market(MarketCommand::HistoricalTrades { symbol, .. }) => Some(symbol@),
        Route::Market(MarketCommand::AggTrades { symbol, .. }) => Some(symbol@),
        Route::Market(MarketCommand::Klines { symbol, .. }) => Some(symbol@),
        Route::Account(AccountCommand::Trades { symbol, .. }) => Some(symbol@),
        _ => None,
    }
}

/// The limit that a routed command sends, where it sends one.
pub open spec fn route_limit(r: Route) -> Option<u32> {
    match r {
        Route::Market(MarketCommand::Orderbook { limit, .. }) => Some(limit),
        Route::Market(MarketCommand::Trades { limit, .. }) => Some(limit),
        Route::Market(MarketCommand::HistoricalTrades { limit, .. }) => Some(limit),
        Route::Market(MarketCommand::AggTrades { limit, .. }) => Some(limit),
        Route::Market(MarketCommand::Klines { limit, .. }) => Some(limit),
        Route::Account(AccountCommand::Trades { limit, .. }) => Some(limit),
        _ => None,
    }
}

/// The first trade id that a routed command asks for, where it takes one.
pub open spec fn route_from_id(r: Route) -> Option<Option<u64>> {
    match r {
        Route::Market(MarketCommand::HistoricalTrades { from_id, .. }) => Some(from_id),
        Route::Account(AccountCommand::Trades { from_id, .. }) => Some(from_id),
        _ => None,
    }
}

/// Law: routing never drops what the user asked for. A command on a pair is
/// routed to a command on the pair's REST symbol; a count becomes the limit
/// sent; a `--since` trade id becomes the first trade id asked for (none
/// stays none); a kline interval and a withdrawal's asset, amount, address
/// and network are handed on unchanged; and only the shell and the MCP
/// server are refused.
pub proof fn law_routing_keeps_arguments(cmd: Command, r: Result<Route, BinanceError>)
    requires
        routed(cmd, r),
    ensures
        command_pair(cmd) matches Some(p) ==> r matches Ok(route) && route_symbol(route) == Some(
            api_symbol(p),
        ),
        command_count(cmd) matches Some(n) ==> r matches Ok(route) && route_limit(route) == Some(n),
        command_since(cmd) matches Some(s) ==> r matches Ok(route) && route_from_id(route) == Some(s),
        r is Err <==> (cmd is Shell || cmd is Mcp),
        cmd matches Command::Ohlc { interval, .. } ==> r matches Ok(
            Route::Market(MarketCommand::Klines { interval: i, .. }),
        ) && i == interval,
        cmd matches Command::Withdraw { asset, volume, address, network } ==> r matches Ok(
            Route::Funding(FundingCommand::Withdraw { coin, amount, address: a, network: n }),
        ) && coin == asset && amount == volume && a == address && n == network,
{
}

impl Command {
    /// Dispatches a command (other than running the shell) to its executor.
    pub fn route(self) -> (r: Result<Route, BinanceError>)
        ensures
            routed(self, r),
    {
        match self {
            Command::Ping => Ok(Route::Market(MarketCommand::Ping)),
            Command::ServerTime => Ok(Route::Market(MarketCommand::ServerTime)),
            Command::ExchangeInfo => Ok(Route::Market(MarketCommand::ExchangeInfo)),
            Command::Ticker { pair } => Ok(
                Route::Market(MarketCommand::Ticker { symbol: normalize_pair(pair.as_str()) }),
            ),
            Command::TickerAll => Ok(Route::Market(MarketCommand::TickerAll)),
            Command::Price { pair } => Ok(
                Route::Market(MarketCommand::Price { symbol: normalize_pair(pair.as_str()) }),
            ),
            Command::BookTicker { pair } => Ok(
                Route::Market(MarketCommand::BookTicker { symbol: normalize_pair(pair.as_str()) }),
            ),
            Command::Orderbook { pair, count } => Ok(
                Route::Market(
                    MarketCommand::Orderbook { symbol: normalize_pair(pair.as_str()), limit: count },
                ),
            ),
            Command::Trades { pair, count } => Ok(
                Route::Market(
                    MarketCommand::Trades { symbol: normalize_pair(pair.as_str()), limit: count },
                ),
            ),
            Command::HistoricalTrades { pair, count, since } => Ok(
                Route::Market(
                    MarketCommand::HistoricalTrades {
                        symbol: normalize_pair(pair.as_str()),
                        limit: count,
                        from_id: since,
                    },
                ),
            ),
            Command::AggTrades { pair, count } => Ok(
                Route::Market(
                    MarketCommand::AggTrades { symbol: normalize_pair(pair.as_str()), limit: count },
                ),
            ),
            Command::Ohlc { pair, interval, count } => Ok(
                Route::Market(
                    MarketCommand::Klines {
                        symbol: normalize_pair(pair.as_str()),
                        interval,
                        limit: count,
                    },
                ),
            ),
            Command::AccountInfo => Ok(Route::Account(AccountCommand::Info)),
            Command::Balance => Ok(Route::Account(AccountCommand::Balance)),
            Command::TradesHistory { pair, count, since } => Ok(
                Route::Account(
                    AccountCommand::Trades {
                        symbol: normalize_pair(pair.as_str()),
                        limit: count,
                        from_id: since,
                    },
                ),
            ),
            Command::Order(c) => Ok(Route::Trade(c)),
            Command::Deposit(c) => Ok(Route::Funding(c)),
            Command::Withdraw { asset, volume, address, network } => Ok(
                Route::Funding(
                    FundingCommand::Withdraw { coin: asset, amount: volume, address, network },
                ),
            ),
            Command::Withdrawal(c) => Ok(Route::Funding(c)),
            Command::Ws(c) => Ok(Route::Stream(c)),
            Command::Paper(c) => Ok(Route::Paper(c)),
            Command::Futures(c) => Ok(Route::Futures(c)),
            Command::Shell => Err(BinanceError::Config(String::from_str(SHELL_NOT_HERE))),
            Command::Mcp { .. } => Err(BinanceError::Config(String::from_str(MCP_NOT_HERE))),
        }
    }
}

} // verus!
