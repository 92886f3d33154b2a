//! WebSocket stream commands: the stream each command opens, the labels
//! and filtering of user-data events, and the bounds that end a stream.
use vstd::prelude::*;

use crate::errors::BinanceError;
use crate::numbers::JsonField;
use crate::text::{joined, same_text};
use crate::{normalize_pair_ws, stream_symbol};

verus! {

/// The market stream host.
pub const DEFAULT_WS_HOST: &'static str = "wss://stream.binance.com:9443/ws";

#[derive(Debug)]
pub enum WebSocketCommand {
    /// Stream order book depth updates
    Depth { symbol: String, limit: Option<usize>, seconds: Option<u64> },
    /// Stream real-time 24hr ticker updates
    Ticker { symbol: String, limit: Option<usize>, seconds: Option<u64> },
    /// Stream real-time best bid/ask book ticker updates
    BookTicker { symbol: String, limit: Option<usize>, seconds: Option<u64> },
    /// Stream private account/order/trade updates
    User { limit: Option<usize>, seconds: Option<u64> },
    /// Stream private order updates (user stream filtering executionReport)
    Orders { limit: Option<usize>, seconds: Option<u64> },
    /// Stream private balance updates (user stream filtering
    /// outboundAccountPosition)
    Balances { limit: Option<usize>, seconds: Option<u64> },
}

/// When a stream stops: after `limit` data messages, after `seconds`.
#[derive(Debug, Clone, Copy, PartialEq, Eq)]
pub struct StreamBounds {
    pub limit: Option<usize>,
    pub seconds: Option<u64>,
}

/// Whether `count` data messages reach the message limit.
pub open spec fn limit_hit(b: StreamBounds, count: usize) -> bool {
    b.limit matches Some(n) && count >= n
}

/// What a stream receives, as far as its loop decides on it.
#[derive(Debug, Clone, Copy, PartialEq, Eq)]
pub enum StreamEvent {
    /// A text message that was shown.
    Data,
    /// A user-data event that the filter left out.
    Filtered,
    /// A ping (answered with a pong).
    Ping,
    /// The server closed the connection.
    Close,
    /// A binary message (ignored).
    Binary,
    /// A transport error.
    Failed,
    /// Any other frame.
    Other,
}

/// The number of data messages after an event, and whether the stream
/// stops: it stops on close and on errors, and after an event that was not
/// filtered out once the limit is reached.
pub open spec fn stream_step(b: StreamBounds, count: usize, e: StreamEvent) -> (int, bool) {
    match e {
        StreamEvent::Data => (count + 1, b.limit matches Some(n) && count + 1 >= n),
        StreamEvent::Filtered => (count as int, false),
        StreamEvent::Close | StreamEvent::Failed => (count as int, true),
        _ => (count as int, limit_hit(b, count)),
    }
}

impl StreamBounds {
    pub fn new(limit: Option<usize>, seconds: Option<u64>) -> (r: Self)
        ensures
            r.limit == limit,
            r.seconds == seconds,
    {
        StreamBounds { limit, seconds }
    }

    /// Whether `count` data messages reach the message limit.
    pub fn limit_reached(self, count: usize) -> (r: bool)
        ensures
            r == limit_hit(self, count),
    {
        match self.limit {
            Some(limit) => count >= limit,
            None => false,
        }
    }

    /// Whether the stream may read another message after `count` data
    /// messages: not once the message limit is reached, so a limit of 0
    /// reads nothing.
    pub fn should_read(self, count: usize) -> (r: bool)
        ensures
            r == !limit_hit(self, count),
    {
        !self.limit_reached(count)
    }

    /// The stream's state after an event: the number of data messages
    /// shown, and whether to stop.
    pub fn after(self, count: usize, event: StreamEvent) -> (r: (usize, bool))
        requires
            event == StreamEvent::Data ==> count < usize::MAX,
        ensures
            (r.0 as int, r.1) == stream_step(self, count, event),
    {
        match event {
            StreamEvent::Data => {
                let c = count + 1;
                (c, self.limit_reached(c))
            },
            StreamEvent::Filtered => (count, false),
            StreamEvent::Close | StreamEvent::Failed => (count, true),
            _ => (count, self.limit_reached(count)),
        }
    }
}

/// Law: a stream with a limit of `n` messages that has shown fewer than
/// `n` either goes on with fewer than `n`, or stops having shown at most
/// `n`; so it never shows more than `n` data messages. Every event other
/// than a shown message leaves the count unchanged.
pub proof fn law_stream_never_exceeds_limit(b: StreamBounds, n: usize, count: usize, e: StreamEvent)
    requires
        b.limit == Some(n),
        count < n,
    ensures
        stream_step(b, count, e).0 <= n,
        !stream_step(b, count, e).1 ==> stream_step(b, count, e).0 < n,
        e != StreamEvent::Data ==> stream_step(b, count, e).0 == count,
        e == StreamEvent::Data ==> stream_step(b, count, e).0 == count + 1,
{
}

/// Law: a stream with a limit of `n` messages is read only while it has
/// shown fewer than `n`; with a limit of 0 it reads nothing at all. A
/// stream without a limit is always read (until it closes or times out).
pub proof fn law_stream_reads_only_below_limit(b: StreamBounds, count: usize)
    ensures
        b.limit matches Some(n) ==> (!limit_hit(b, count) <==> count < n),
        b.limit == Some(0usize) ==> limit_hit(b, count),
        b.limit is None ==> !limit_hit(b, count),
{
}

/// Which stream a command opens.
#[derive(Debug)]
pub enum StreamTarget {
    /// A public market stream: its URL, type, lower-cased symbol and the
    /// label of its messages.
    Market { url: String, stream_type: String, symbol: String, label: String },
    /// The private user-data stream, keeping only the events of one type
    /// when a filter is given.
    User { filter: Option<String> },
}

#[derive(Debug)]
pub struct StreamPlan {
    pub target: StreamTarget,
    pub bounds: StreamBounds,
}

/// Whether the target is the market stream of the pair `symbol` (as users
/// write it, normalized to the lower-case stream symbol) of the given type.
pub open spec fn market_stream(t: StreamTarget, symbol: Seq<char>, stream_type: Seq<char>, label: Seq<char>) -> bool {
    t matches StreamTarget::Market { url, stream_type: st, symbol: s, label: l } && s@
        == stream_symbol(symbol) && st@ == stream_type && l@ == label && url@ == DEFAULT_WS_HOST@
        + "/"@ + stream_symbol(symbol) + "@"@ + stream_type
}

pub open spec fn user_stream(t: StreamTarget, filter: Option<Seq<char>>) -> bool {
    t matches StreamTarget::User { filter: f } && f.deep_view() == filter
}

/// Whether `p` is the stream plan of the command.
pub open spec fn stream_planned(cmd: WebSocketCommand, p: StreamPlan) -> bool {
    match cmd {
        WebSocketCommand::Depth { symbol, limit, seconds } => market_stream(
            p.target,
            symbol@,
            "depth"@,
            "Depth Updates"@,
        ) && p.bounds == StreamBounds { limit, seconds },
        WebSocketCommand::Ticker { symbol, limit, seconds } => market_stream(
            p.target,
            symbol@,
            "ticker"@,
            "Ticker Updates"@,
        ) && p.bounds == StreamBounds { limit, seconds },
        WebSocketCommand::BookTicker { symbol, limit, seconds } => market_stream(
            p.target,
            symbol@,
            "bookTicker"@,
            "Book Ticker Updates"@,
        ) && p.bounds == StreamBounds { limit, seconds },
        WebSocketCommand::User { limit, seconds } => user_stream(p.target, None) && p.bounds
            == StreamBounds { limit, seconds },
        WebSocketCommand::Orders { limit, seconds } => user_stream(
            p.target,
            Some("executionReport"@),
        ) && p.bounds == StreamBounds { limit, seconds },
        WebSocketCommand::Balances { limit, seconds } => user_stream(
            p.target,
            Some("outboundAccountPosition"@),
        ) && p.bounds == StreamBounds { limit, seconds },
    }
}

/// The message limit and the time limit that a stream command was given.
pub open spec fn command_bounds(cmd: WebSocketCommand) -> (Option<usize>, Option<u64>) {
    match cmd {
        WebSocketCommand::Depth { limit, seconds, .. } => (limit, seconds),
        WebSocketCommand::Ticker { limit, seconds, .. } => (limit, seconds),
        WebSocketCommand::BookTicker { limit, seconds, .. } => (limit, seconds),
        WebSocketCommand::User { limit, seconds } => (limit, seconds),
        WebSocketCommand::Orders { limit, seconds } => (limit, seconds),
        WebSocketCommand::Balances { limit, seconds } => (limit, seconds),
    }
}

/// Whether the target is the market stream "`symbol`@`stream_type`" on the
/// stream host, for the stream symbol of the pair `pair`.
pub open spec fn opens_stream(t: StreamTarget, pair: Seq<char>, stream_type: Seq<char>) -> bool {
    t matches StreamTarget::Market { url, stream_type: st, symbol: s, .. } && s@ == stream_symbol(
        pair,
    ) && st@ == stream_type && url@ == DEFAULT_WS_HOST@ + "/"@ + s@ + "@"@ + st@
}

/// Law: every stream, market or user-data, is bounded by exactly the
/// message limit and the number of seconds that its command was given
/// (none given, no bound), and a market stream is opened at the URL of
/// its own type (depth, ticker or bookTicker) on the stream symbol of the
/// pair that its command names.
pub proof fn law_stream_keeps_its_bounds(cmd: WebSocketCommand, p: StreamPlan)
    requires
        stream_planned(cmd, p),
    ensures
        p.bounds.limit == command_bounds(cmd).0,
        p.bounds.seconds == command_bounds(cmd).1,
        match cmd {
            WebSocketCommand::Depth { symbol, .. } => opens_stream(p.target, symbol@, "depth"@),
            WebSocketCommand::Ticker { symbol, .. } => opens_stream(p.target, symbol@, "ticker"@),
            WebSocketCommand::BookTicker { symbol, .. } => opens_stream(
                p.target,
                symbol@,
                "bookTicker"@,
            ),
            _ => p.target is User,
        },
{
}

fn market_target(symbol: &str, stream_type: &str, label: &str) -> (t: StreamTarget)
    ensures
        market_stream(t, symbol@, stream_type@, label@),
{
    let sym = normalize_pair_ws(symbol);
    let mut url = joined(DEFAULT_WS_HOST, "/");
    url.append(sym.as_str());
    url.append("@");
    url.append(stream_type);
    StreamTarget::Market {
        url,
        stream_type: String::from_str(stream_type),
        symbol: sym,
        label: String::from_str(label),
    }
}

fn user_target(filter: Option<&str>) -> (t: StreamTarget)
    ensures
        user_stream(t, filter.deep_view()),
{
    match filter {
        Some(f) => StreamTarget::User { filter: Some(String::from_str(f)) },
        None => StreamTarget::User { filter: None },
    }
}

impl WebSocketCommand {
    /// The stream that this command opens and its bounds.
    pub fn plan(&self) -> (p: StreamPlan)
        ensures
            stream_planned(*self, p),
    {
        match self {
            WebSocketCommand::Depth { symbol, limit, seconds } => StreamPlan {
                target: market_target(symbol.as_str(), "depth", "Depth Updates"),
                bounds: StreamBounds::new(*limit, *seconds),
            },
            WebSocketCommand::Ticker { symbol, limit, seconds } => StreamPlan {
                target: market_target(symbol.as_str(), "ticker", "Ticker Updates"),
                bounds: StreamBounds::new(*limit, *seconds),
            },
            WebSocketCommand::BookTicker { symbol, limit, seconds } => StreamPlan {
                target: market_target(symbol.as_str(), "bookTicker", "Book Ticker Updates"),
                bounds: StreamBounds::new(*limit, *seconds),
            },
            WebSocketCommand::User { limit, seconds } => StreamPlan {
                target: user_target(None),
                bounds: StreamBounds::new(*limit, *seconds),
            },
            WebSocketCommand::Orders { limit, seconds } => StreamPlan {
                target: user_target(Some("executionReport")),
                bounds: StreamBounds::new(*limit, *seconds),
            },
            WebSocketCommand::Balances { limit, seconds } => StreamPlan {
                target: user_target(Some("outboundAccountPosition")),
                bounds: StreamBounds::new(*limit, *seconds),
            },
        }
    }
}

/// The listen key of a user-data stream response, or the API error when
/// the "listenKey" field is not a string.
pub fn listen_key(field: &JsonField) -> (r: Result<String, BinanceError>)
    ensures
        match field {
            JsonField::Text(k) => r == Ok::<String, BinanceError>(*k),
            _ => r matches Err(BinanceError::Api { code, message }) && code == -1 && message@
                == "Failed to obtain listenKey from userDataStream response"@,
        },
{
    match field {
        JsonField::Text(k) => Ok(k.clone()),
        _ => Err(
            BinanceError::Api {
                code: -1,
                message: String::from_str("Failed to obtain listenKey from userDataStream response"),
            },
        ),
    }
}

/// The URL of the user-data stream of a listen key.
pub fn user_stream_url(listen_key: &str) -> (r: String)
    ensures
        r@ == DEFAULT_WS_HOST@ + "/"@ + listen_key@,
{
    let mut url = joined(DEFAULT_WS_HOST, "/");
    url.append(listen_key);
    url
}

/// The event type of a user-data message: its "e" field when that is a
/// string, else empty.
pub fn event_type(field: &JsonField) -> (r: String)
    ensures
        r@ == (match field {
            JsonField::Text(t) => t@,
            _ => Seq::<char>::empty(),
        }),
{
    match field {
        JsonField::Text(t) => t.clone(),
        _ => String::new(),
    }
}

/// Whether an event of this type is shown under the filter.
pub fn passes_filter(filter: &Option<String>, event_type: &str) -> (r: bool)
    ensures
        r == (match filter {
            Some(f) => f@ == event_type@,
            None => true,
        }),
{
    match filter {
        Some(f) => same_text(event_type, f.as_str()),
        None => true,
    }
}

/// The label shown with a user-data event: a name for the three known
/// event types, else the type itself.
pub open spec fn event_label(t: Seq<char>) -> Seq<char> {
    if t == "outboundAccountPosition"@ {
        "Account Balance Update"@
    } else if t == "balanceUpdate"@ {
        "Asset Balance Update"@
    } else if t == "executionReport"@ {
        "Order Update"@
    } else {
        t
    }
}

pub fn user_event_label(event_type: &str) -> (r: String)
    ensures
        r@ == event_label(event_type@),
{
    if same_text(event_type, "outboundAccountPosition") {
        String::from_str("Account Balance Update")
    } else if same_text(event_type, "balanceUpdate") {
        String::from_str("Asset Balance Update")
    } else if same_text(event_type, "executionReport") {
        String::from_str("Order Update")
    } else {
        String::from_str(event_type)
    }
}

} // verus!
