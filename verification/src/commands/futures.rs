//! USDS-M futures commands: the request that each command sends, its
//! title, and the signing of private requests (HMAC-SHA256 over the query
//! string, hex-encoded).
use vstd::prelude::*;

use crate::config::Credentials;
use crate::output::ReplyDisplay;
use crate::errors::BinanceError;
use crate::numbers::JsonField;
use crate::text::{append_decimal, append_signed, decimal, joined, same_text, signed_decimal, to_upper, upper_case};
use crate::{api_symbol, normalize_pair};

use hmac::Mac;

verus! {

/// The futures REST host.
pub const FUTURES_HOST: &'static str = "https://fapi.binance.com";

#[derive(Debug)]
pub enum FuturesCommand {
    /// Test connectivity to the Futures REST API
    Ping,
    /// Get the current futures server time
    ServerTime,
    /// Get futures exchange trading rules and symbol information
    ExchangeInfo,
    /// Get futures 24hr ticker price change statistics
    Ticker { pair: String },
    /// Get latest price for a futures symbol
    Price { pair: String },
    /// Get futures order book depth
    Orderbook { pair: String, count: u32 },
    /// Get recent futures trades
    Trades { pair: String, count: u32 },
    /// Get futures kline/candlestick bars (OHLC)
    Ohlc { pair: String, interval: String, count: u32 },
    /// Get futures account information (balances, positions, etc.)
    AccountInfo,
    /// Get futures balances
    Balance,
    /// Get open futures positions
    Positions { pair: Option<String> },
    /// Place a futures order
    Order {
        pair: String,
        side: String,
        order_type: String,
        volume: String,
        price: Option<String>,
        time_in_force: String,
        stop_price: Option<String>,
        reduce_only: bool,
    },
    /// Cancel a futures order
    Cancel { pair: String, order_id: Option<u64>, client_order_id: Option<String> },
    /// Cancel all open futures orders
    CancelAll { pair: String },
}

#[derive(Debug, Clone, Copy, PartialEq, Eq)]
pub enum HttpMethod {
    Get,
    Post,
    Delete,
}

/// What a futures command sends: an unsigned GET of a full URL, or a signed
/// request of a path with its query parameters, in order.
#[derive(Debug)]
pub enum FuturesCall {
    Public { url: String },
    Private { method: HttpMethod, path: String, params: Vec<(String, String)> },
}

/// The request of a futures command, and the title of its output.
#[derive(Debug)]
pub struct FuturesPlan {
    pub call: FuturesCall,
    pub title: String,
    /// The line shown under the output, where it is fixed by the command.
    pub addendum: Option<String>,
    /// What the output shows of the reply.
    pub display: ReplyDisplay,
}

/// The characters of each parameter name and value.
pub open spec fn params_view(v: Seq<(String, String)>) -> Seq<(Seq<char>, Seq<char>)> {
    v.map_values(|p: (String, String)| (p.0@, p.1@))
}

pub open spec fn optional_param(name: Seq<char>, value: Option<String>) -> Seq<(Seq<char>, Seq<char>)> {
    match value {
        Some(v) => seq![(name, v@)],
        None => Seq::empty(),
    }
}

/// The parameters of a futures order: symbol, side, type and quantity; the
/// time in force and price only for LIMIT orders (of any letter case); the
/// stop price when given; `reduceOnly=true` when asked.
pub open spec fn order_params(
    pair: Seq<char>,
    side: Seq<char>,
    order_type: Seq<char>,
    volume: Seq<char>,
    price: Option<String>,
    time_in_force: Seq<char>,
    stop_price: Option<String>,
    reduce_only: bool,
) -> Seq<(Seq<char>, Seq<char>)> {
    seq![("symbol"@, api_symbol(pair)), ("side"@, side), ("type"@, order_type), ("quantity"@, volume)]
        + (if upper_case(order_type) == "LIMIT"@ {
        seq![("timeInForce"@, time_in_force)] + optional_param("price"@, price)
    } else {
        Seq::empty()
    }) + optional_param("stopPrice"@, stop_price) + (if reduce_only {
        seq![("reduceOnly"@, "true"@)]
    } else {
        Seq::empty()
    })
}

/// Whether the call is the unsigned GET of the futures host followed by `rest`.
pub open spec fn is_public(call: FuturesCall, rest: Seq<char>) -> bool {
    call matches FuturesCall::Public { url } && url@ == FUTURES_HOST@ + rest
}

/// Whether the call is the signed request of `path` with `params`.
pub open spec fn is_private(
    call: FuturesCall,
    method: HttpMethod,
    path: Seq<char>,
    params: Seq<(Seq<char>, Seq<char>)>,
) -> bool {
    call matches FuturesCall::Private { method: m, path: p, params: ps } && m == method && p@ == path
        && params_view(ps@) == params
}

/// Whether `plan` is what the futures command `cmd` sends and how its
/// output is shown: a ping shows only that the API is reachable, and the
/// server time shows the time that the reply holds.
pub open spec fn futures_planned(cmd: FuturesCommand, plan: FuturesPlan) -> bool {
    &&& futures_call_planned(cmd, plan)
    &&& match cmd {
        FuturesCommand::Ping => {
            &&& plan.display == ReplyDisplay::StatusOnly
            &&& plan.addendum matches Some(a) && a@ == "Binance Futures API is reachable"@
        },
        FuturesCommand::ServerTime => plan.display == ReplyDisplay::ServerTime && plan.addendum is None,
        _ => plan.display == ReplyDisplay::Reply && plan.addendum is None,
    }
}

/// Whether `plan` holds what the futures command `cmd` sends and its title.
pub open spec fn futures_call_planned(cmd: FuturesCommand, plan: FuturesPlan) -> bool {
    match cmd {
        FuturesCommand::Ping => is_public(plan.call, "/fapi/v1/ping"@) && plan.title@
            == "Futures Ping"@,
        FuturesCommand::ServerTime => is_public(plan.call, "/fapi/v1/time"@) && plan.title@
            == "Futures Server Time"@,
        FuturesCommand::ExchangeInfo => is_public(plan.call, "/fapi/v1/exchangeInfo"@)
            && plan.title@ == "Futures Exchange Info"@,
        FuturesCommand::Ticker { pair } => is_public(
            plan.call,
            "/fapi/v1/ticker/24hr?symbol="@ + api_symbol(pair@),
        ) && plan.title@ == "Futures 24h Ticker — "@ + api_symbol(pair@),
        FuturesCommand::Price { pair } => is_public(
            plan.call,
            "/fapi/v1/ticker/price?symbol="@ + api_symbol(pair@),
        ) && plan.title@ == "Futures Price — "@ + api_symbol(pair@),
        FuturesCommand::Orderbook { pair, count } => is_public(
            plan.call,
            "/fapi/v1/depth?symbol="@ + api_symbol(pair@) + "&limit="@ + decimal(count as nat),
        ) && plan.title@ == "Futures Order Book — "@ + api_symbol(pair@),
        FuturesCommand::Trades { pair, count } => is_public(
            plan.call,
            "/fapi/v1/trades?symbol="@ + api_symbol(pair@) + "&limit="@ + decimal(count as nat),
        ) && plan.title@ == "Futures Recent Trades — "@ + api_symbol(pair@),
        FuturesCommand::Ohlc { pair, interval, count } => is_public(
            plan.call,
            "/fapi/v1/klines?symbol="@ + api_symbol(pair@) + "&interval="@ + interval@ + "&limit="@
                + decimal(count as nat),
        ) && plan.title@ == "Futures Klines — "@ + api_symbol(pair@),
        FuturesCommand::AccountInfo => is_private(
            plan.call,
            HttpMethod::Get,
            "/fapi/v2/account"@,
            Seq::empty(),
        ) && plan.title@ == "Futures Account Info"@,
        FuturesCommand::Balance => is_private(
            plan.call,
            HttpMethod::Get,
            "/fapi/v2/balance"@,
            Seq::empty(),
        ) && plan.title@ == "Futures Balances"@,
        FuturesCommand::Positions { pair } => is_private(
            plan.call,
            HttpMethod::Get,
            "/fapi/v2/positionRisk"@,
            match pair {
                Some(p) => seq![("symbol"@, api_symbol(p@))],
                None => Seq::empty(),
            },
        ) && plan.title@ == "Futures Positions"@,
        FuturesCommand::Order {
            pair,
            side,
            order_type,
            volume,
            price,
            time_in_force,
            stop_price,
            reduce_only,
        } => is_private(
            plan.call,
            HttpMethod::Post,
            "/fapi/v1/order"@,
            order_params(
                pair@,
                side@,
                order_type@,
                volume@,
                price,
                time_in_force@,
                stop_price,
                reduce_only,
            ),
        ) && plan.title@ == "Futures Order Result"@,
        FuturesCommand::Cancel { pair, order_id, client_order_id } => is_private(
            plan.call,
            HttpMethod::Delete,
            "/fapi/v1/order"@,
            seq![("symbol"@, api_symbol(pair@))] + match order_id {
                Some(id) => seq![("orderId"@, decimal(id as nat))],
                None => Seq::empty(),
            } + optional_param("origClientOrderId"@, client_order_id),
        ) && plan.title@ == "Futures Cancel Result"@,
        FuturesCommand::CancelAll { pair } => is_private(
            plan.call,
            HttpMethod::Delete,
            "/fapi/v1/allOpenOrders"@,
            seq![("symbol"@, api_symbol(pair@))],
        ) && plan.title@ == "Futures Cancel All Result"@,
    }
}

fn pair_of(name: &str, value: String) -> (r: (String, String))
    ensures
        r.0@ == name@,
        r.1 == value,
{
    (String::from_str(name), value)
}

fn public_call(rest: String) -> (r: FuturesCall)
    ensures
        r matches FuturesCall::Public { url } && url@ == FUTURES_HOST@ + rest@,
{
    FuturesCall::Public { url: joined(FUTURES_HOST, rest.as_str()) }
}

fn no_params() -> (r: Vec<(String, String)>)
    ensures
        params_view(r@) == Seq::<(Seq<char>, Seq<char>)>::empty(),
{
    let r: Vec<(String, String)> = Vec::new();
    assert(params_view(r@) =~= Seq::<(Seq<char>, Seq<char>)>::empty());
    r
}

fn private_call(method: HttpMethod, path: &str, params: Vec<(String, String)>) -> (r: FuturesCall)
    ensures
        r matches FuturesCall::Private { method: m, path: p, params: ps } && m == method && p@
            == path@ && ps == params,
{
    FuturesCall::Private { method, path: String::from_str(path), params }
}

/// "`prefix`SYMBOL", for the normalized symbol of `pair`.
fn with_symbol(prefix: &str, pair: &str) -> (r: String)
    ensures
        r@ == prefix@ + api_symbol(pair@),
{
    let sym = normalize_pair(pair);
    joined(prefix, sym.as_str())
}

impl FuturesCommand {
    /// The request that this command sends, and the title of its output.
    pub fn plan(&self) -> (r: FuturesPlan)
        ensures
            futures_planned(*self, r),
    {
        match self {
            FuturesCommand::Ping => FuturesPlan {
                call: public_call(String::from_str("/fapi/v1/ping")),
                title: String::from_str("Futures Ping"),
                addendum: Some(String::from_str("Binance Futures API is reachable")),
                display: ReplyDisplay::StatusOnly,
            },
            FuturesCommand::ServerTime => FuturesPlan {
                call: public_call(String::from_str("/fapi/v1/time")),
                title: String::from_str("Futures Server Time"),
                addendum: None,
                display: ReplyDisplay::ServerTime,
            },
            FuturesCommand::ExchangeInfo => FuturesPlan {
                call: public_call(String::from_str("/fapi/v1/exchangeInfo")),
                title: String::from_str("Futures Exchange Info"),
                addendum: None,
                display: ReplyDisplay::Reply,
            },
            FuturesCommand::Ticker { pair } => FuturesPlan {
                call: public_call(with_symbol("/fapi/v1/ticker/24hr?symbol=", pair.as_str())),
                title: with_symbol("Futures 24h Ticker — ", pair.as_str()),
                addendum: None,
                display: ReplyDisplay::Reply,
            },
            FuturesCommand::Price { pair } => FuturesPlan {
                call: public_call(with_symbol("/fapi/v1/ticker/price?symbol=", pair.as_str())),
                title: with_symbol("Futures Price — ", pair.as_str()),
                addendum: None,
                display: ReplyDisplay::Reply,
            },
            FuturesCommand::Orderbook { pair, count } => {
                let mut rest = with_symbol("/fapi/v1/depth?symbol=", pair.as_str());
                rest.append("&limit=");
                append_decimal(&mut rest, *count as u64);
                FuturesPlan {
                    call: public_call(rest),
                    title: with_symbol("Futures Order Book — ", pair.as_str()),
                    addendum: None,
                    display: ReplyDisplay::Reply,
                }
            },
            FuturesCommand::Trades { pair, count } => {
                let mut rest = with_symbol("/fapi/v1/trades?symbol=", pair.as_str());
                rest.append("&limit=");
                append_decimal(&mut rest, *count as u64);
                FuturesPlan {
                    call: public_call(rest),
                    title: with_symbol("Futures Recent Trades — ", pair.as_str()),
                    addendum: None,
                    display: ReplyDisplay::Reply,
                }
            },
            FuturesCommand::Ohlc { pair, interval, count } => {
                let mut rest = with_symbol("/fapi/v1/klines?symbol=", pair.as_str());
                rest.append("&interval=");
                rest.append(interval.as_str());
                rest.append("&limit=");
                append_decimal(&mut rest, *count as u64);
                FuturesPlan {
                    call: public_call(rest),
                    title: with_symbol("Futures Klines — ", pair.as_str()),
                    addendum: None,
                    display: ReplyDisplay::Reply,
                }
            },
            FuturesCommand::AccountInfo => FuturesPlan {
                call: private_call(HttpMethod::Get, "/fapi/v2/account", no_params()),
                title: String::from_str("Futures Account Info"),
                addendum: None,
                display: ReplyDisplay::Reply,
            },
            FuturesCommand::Balance => FuturesPlan {
                call: private_call(HttpMethod::Get, "/fapi/v2/balance", no_params()),
                title: String::from_str("Futures Balances"),
                addendum: None,
                display: ReplyDisplay::Reply,
            },
            FuturesCommand::Positions { pair } => {
                let mut params: Vec<(String, String)> = Vec::new();
                if let Some(p) = pair {
                    params.push(pair_of("symbol", normalize_pair(p.as_str())));
                }
                proof {
                    assert(params_view(params@) =~= match pair {
                        Some(p) => seq![("symbol"@, api_symbol(p@))],
                        None => Seq::<(Seq<char>, Seq<char>)>::empty(),
                    });
                }
                FuturesPlan {
                    call: private_call(HttpMethod::Get, "/fapi/v2/positionRisk", params),
                    title: String::from_str("Futures Positions"),
                    addendum: None,
                    display: ReplyDisplay::Reply,
                }
            },
            FuturesCommand::Order {
                pair,
                side,
                order_type,
                volume,
                price,
                time_in_force,
                stop_price,
                reduce_only,
            } => {
                let params = order_params_of(
                    pair.as_str(),
                    side,
                    order_type,
                    volume,
                    price,
                    time_in_force,
                    stop_price,
                    *reduce_only,
                );
                FuturesPlan {
                    call: private_call(HttpMethod::Post, "/fapi/v1/order", params),
                    title: String::from_str("Futures Order Result"),
                    addendum: None,
                    display: ReplyDisplay::Reply,
                }
            },
            FuturesCommand::Cancel { pair, order_id, client_order_id } => {
                let mut params: Vec<(String, String)> = Vec::new();
                params.push(pair_of("symbol", normalize_pair(pair.as_str())));
                if let Some(id) = order_id {
                    let mut t = String::new();
                    append_decimal(&mut t, *id);
                    params.push(pair_of("orderId", t));
                }
                if let Some(c) = client_order_id {
                    params.push(pair_of("origClientOrderId", c.clone()));
                }
                proof {
                    assert(params_view(params@) =~= seq![("symbol"@, api_symbol(pair@))]
                        + match order_id {
                        Some(id) => seq![("orderId"@, decimal(id as nat))],
                        None => Seq::<(Seq<char>, Seq<char>)>::empty(),
                    } + optional_param("origClientOrderId"@, *client_order_id));
                }
                FuturesPlan {
                    call: private_call(HttpMethod::Delete, "/fapi/v1/order", params),
                    title: String::from_str("Futures Cancel Result"),
                    addendum: None,
                    display: ReplyDisplay::Reply,
                }
            },
            FuturesCommand::CancelAll { pair } => {
                let mut params: Vec<(String, String)> = Vec::new();
                params.push(pair_of("symbol", normalize_pair(pair.as_str())));
                proof {
                    assert(params_view(params@) =~= seq![("symbol"@, api_symbol(pair@))]);
                }
                FuturesPlan {
                    call: private_call(HttpMethod::Delete, "/fapi/v1/allOpenOrders", params),
                    title: String::from_str("Futures Cancel All Result"),
                    addendum: None,
                    display: ReplyDisplay::Reply,
                }
            },
        }
    }
}

/// The query parameters of a futures order.
fn order_params_of(
    pair: &str,
    side: &String,
    order_type: &String,
    volume: &String,
    price: &Option<String>,
    time_in_force: &String,
    stop_price: &Option<String>,
    reduce_only: bool,
) -> (r: Vec<(String, String)>)
    ensures
        params_view(r@) == order_params(
            pair@,
            side@,
            order_type@,
            volume@,
            *price,
            time_in_force@,
            *stop_price,
            reduce_only,
        ),
{
    let mut params: Vec<(String, String)> = Vec::new();
    params.push(pair_of("symbol", normalize_pair(pair)));
    params.push(pair_of("side", side.clone()));
    params.push(pair_of("type", order_type.clone()));
    params.push(pair_of("quantity", volume.clone()));
    let ghost base = params_view(params@);
    assert(base =~= seq![("symbol"@, api_symbol(pair@)), ("side"@, side@), ("type"@, order_type@), ("quantity"@, volume@)]);
    let upper = to_upper(order_type.as_str());
    let is_limit = same_text(upper.as_str(), "LIMIT");
    if is_limit {
        params.push(pair_of("timeInForce", time_in_force.clone()));
        if let Some(p) = price {
            params.push(pair_of("price", p.clone()));
        }
    }
    let ghost with_limit = params_view(params@);
    assert(with_limit =~= base + (if upper_case(order_type@) == "LIMIT"@ {
        seq![("timeInForce"@, time_in_force@)] + optional_param("price"@, *price)
    } else {
        Seq::<(Seq<char>, Seq<char>)>::empty()
    }));
    if let Some(sp) = stop_price {
        params.push(pair_of("stopPrice", sp.clone()));
    }
    let ghost with_stop = params_view(params@);
    assert(with_stop =~= with_limit + optional_param("stopPrice"@, *stop_price));
    if reduce_only {
        params.push(pair_of("reduceOnly", String::from_str("true")));
    }
    assert(params_view(params@) =~= with_stop + (if reduce_only {
        seq![("reduceOnly"@, "true"@)]
    } else {
        Seq::<(Seq<char>, Seq<char>)>::empty()
    }));
    params
}


/// "name=value".
pub open spec fn param_text(p: (Seq<char>, Seq<char>)) -> Seq<char> {
    p.0 + "="@ + p.1
}

/// The parameters as "name=value" joined by '&', in order.
pub open spec fn query_text(ps: Seq<(Seq<char>, Seq<char>)>) -> Seq<char>
    decreases ps.len(),
{
    if ps.len() == 0 {
        Seq::empty()
    } else if ps.len() == 1 {
        param_text(ps[0])
    } else {
        query_text(ps.drop_last()) + "&"@ + param_text(ps.last())
    }
}

/// The signed payload: the parameters followed by the timestamp parameter.
pub open spec fn signing_payload(ps: Seq<(Seq<char>, Seq<char>)>, timestamp: int) -> Seq<char> {
    query_text(ps.push(("timestamp"@, signed_decimal(timestamp))))
}

/// What HMAC-SHA256 computes for a key and a message.
pub uninterp spec fn hmac_sha256(key: Seq<u8>, message: Seq<u8>) -> Seq<u8>;

/// The lower-case hexadecimal digit of `n` (`n < 16`).
pub open spec fn hex_digit(n: int) -> char {
    if n < 10 {
        ((48 + n) as u32) as char
    } else {
        ((87 + n) as u32) as char
    }
}

/// Lower-case hexadecimal text of bytes, two digits per byte, high nibble
/// first.
pub open spec fn lower_hex(d: Seq<u8>) -> Seq<char>
    decreases d.len(),
{
    if d.len() == 0 {
        Seq::empty()
    } else {
        lower_hex(d.drop_last()) + seq![hex_digit((d.last() / 16) as int), hex_digit((d.last() % 16) as int)]
    }
}

/// The signature of a payload under an API secret: the lower-case hex text
/// of HMAC-SHA256 keyed by the secret's UTF-8 bytes over the payload's.
pub open spec fn signature_of(secret: Seq<char>, payload: Seq<char>) -> Seq<char> {
    lower_hex(hmac_sha256(vstd::utf8::encode_utf8(secret), vstd::utf8::encode_utf8(payload)))
}

/// Calls `Hmac::<Sha256>::new_from_slice`, `Mac::update` and
/// `Mac::finalize`. Trusted: the result is the named HMAC-SHA256 of the
/// message under the key, and (as the source shows, HMAC taking keys of any
/// length) key setup never fails.
#[verifier::external_body]
fn hmac_sha256_digest(key: &[u8], message: &[u8]) -> (r: Option<Vec<u8>>)
    ensures
        r is Some,
        r.unwrap()@ == hmac_sha256(key@, message@),
{
    match <hmac::Hmac<sha2::Sha256> as Mac>::new_from_slice(key) {
        Ok(mut mac) => {
            mac.update(message);
            Some(mac.finalize().into_bytes().to_vec())
        },
        Err(_) => None,
    }
}

/// Calls `hex::encode`. Trusted: two lower-case hex digits per byte, high
/// nibble first, as the crate's source shows.
#[verifier::external_body]
fn hex_encode(data: &[u8]) -> (r: String)
    ensures
        r@ == lower_hex(data@),
{
    hex::encode(data)
}

/// A signed private futures request: the method, the full URL with the
/// payload and its signature, and the API key that goes in the
/// `X-MBX-APIKEY` header.
#[derive(Debug)]
pub struct SignedRequest {
    pub method: HttpMethod,
    pub url: String,
    pub api_key: String,
}

/// Builds the signed payload "name=value&...&timestamp=T".
pub fn signing_payload_text(params: &Vec<(String, String)>, timestamp: i64) -> (r: String)
    ensures
        r@ == signing_payload(params_view(params@), timestamp as int),
{
    let ghost ps = params_view(params@);
    let mut out = String::new();
    let mut i: usize = 0;
    while i < params.len()
        invariant
            i <= params.len(),
            ps == params_view(params@),
            out@ == query_text(ps.take(i as int)),
        decreases params.len() - i,
    {
        let ghost prev = out@;
        if i > 0 {
            out.append("&");
        }
        out.append(params[i].0.as_str());
        out.append("=");
        out.append(params[i].1.as_str());
        proof {
            let t = ps.take(i + 1);
            assert(t.drop_last() =~= ps.take(i as int));
            assert(t.last() == (params@[i as int].0@, params@[i as int].1@));
            if i == 0 {
                assert(t.len() == 1);
            }
        }
        i += 1;
    }
    let ghost before = out@;
    if params.len() > 0 {
        out.append("&");
    }
    out.append("timestamp=");
    append_signed(&mut out, timestamp);
    proof {
        let all = ps.push(("timestamp"@, signed_decimal(timestamp as int)));
        reveal_strlit("timestamp=");
        reveal_strlit("timestamp");
        reveal_strlit("=");
        assert("timestamp="@ =~= "timestamp"@ + "="@);
        assert(ps.take(params.len() as int) =~= ps);
        assert(all.drop_last() =~= ps);
        assert(all.last() == ("timestamp"@, signed_decimal(timestamp as int)));
        if params.len() == 0 {
            assert(all.len() == 1);
            assert(all[0] == all.last());
            assert(out@ =~= query_text(all));
        } else {
            assert(out@ =~= query_text(ps) + "&"@ + param_text(all.last()));
        }
    }
    out
}

/// The hex signature of `payload` under `secret`.
pub fn sign_payload(secret: &str, payload: &str) -> (r: Result<String, BinanceError>)
    ensures
        r matches Ok(s) && s@ == signature_of(secret@, payload@),
{
    match hmac_sha256_digest(secret.as_bytes(), payload.as_bytes()) {
        Some(d) => Ok(hex_encode(d.as_slice())),
        None => Err(BinanceError::Internal(String::from_str("Invalid Length"))),
    }
}

/// The full URL of a signed private request.
pub open spec fn signed_url(path: Seq<char>, payload: Seq<char>, signature: Seq<char>) -> Seq<char> {
    FUTURES_HOST@ + path + "?"@ + payload + "&signature="@ + signature
}

/// Signs a private futures request with the credentials at the given
/// millisecond timestamp.
pub fn sign_request(
    credentials: &Credentials,
    method: HttpMethod,
    path: &str,
    params: &Vec<(String, String)>,
    timestamp: i64,
) -> (r: Result<SignedRequest, BinanceError>)
    ensures
        r matches Ok(s) && s.method == method && s.api_key == credentials.api_key && s.url@
            == signed_url(
            path@,
            signing_payload(params_view(params@), timestamp as int),
            signature_of(
                credentials.api_secret@,
                signing_payload(params_view(params@), timestamp as int),
            ),
        ),
{
    let payload = signing_payload_text(params, timestamp);
    let signature = match sign_payload(credentials.api_secret.as_str(), payload.as_str()) {
        Ok(s) => s,
        Err(e) => return Err(e),
    };
    let mut url = joined(FUTURES_HOST, path);
    url.append("?");
    url.append(payload.as_str());
    url.append("&signature=");
    url.append(signature.as_str());
    Ok(SignedRequest { method, url, api_key: credentials.api_key.clone() })
}

/// No parameter of a futures order other than the reduce-only flag is
/// named "reduceOnly".
proof fn lemma_order_params_reduce_only(
    pair: Seq<char>,
    side: Seq<char>,
    order_type: Seq<char>,
    volume: Seq<char>,
    price: Option<String>,
    time_in_force: Seq<char>,
    stop_price: Option<String>,
    reduce_only: bool,
)
    ensures
        order_params(pair, side, order_type, volume, price, time_in_force, stop_price, reduce_only).contains(
            ("reduceOnly"@, "true"@),
        ) <==> reduce_only,
        order_params(pair, side, order_type, volume, price, time_in_force, stop_price, reduce_only).contains(
            ("timeInForce"@, time_in_force),
        ) <==> upper_case(order_type) == "LIMIT"@,
{
    reveal_strlit("reduceOnly");
    reveal_strlit("symbol");
    reveal_strlit("side");
    reveal_strlit("type");
    reveal_strlit("quantity");
    reveal_strlit("timeInForce");
    reveal_strlit("price");
    reveal_strlit("stopPrice");
    let base = seq![("symbol"@, api_symbol(pair)), ("side"@, side), ("type"@, order_type), ("quantity"@, volume)]
        + (if upper_case(order_type) == "LIMIT"@ {
        seq![("timeInForce"@, time_in_force)] + optional_param("price"@, price)
    } else {
        Seq::empty()
    }) + optional_param("stopPrice"@, stop_price);
    let all = order_params(pair, side, order_type, volume, price, time_in_force, stop_price, reduce_only);
    assert forall|i: int| 0 <= i < base.len() implies #[trigger] base[i].0.len() != 10 by {
        assert(base[i].0.len() != 10);
    }
    let head = seq![("symbol"@, api_symbol(pair)), ("side"@, side), ("type"@, order_type), ("quantity"@, volume)];
    let stop_part = optional_param("stopPrice"@, stop_price);
    let reduce_part = if reduce_only {
        seq![("reduceOnly"@, "true"@)]
    } else {
        Seq::<(Seq<char>, Seq<char>)>::empty()
    };
    if upper_case(order_type) == "LIMIT"@ {
        assert(all[4] == ("timeInForce"@, time_in_force));
    } else {
        assert(all =~= head + stop_part + reduce_part);
        assert forall|i: int| 0 <= i < all.len() implies all[i].0.len() != 11 by {
            if i >= 4 + stop_part.len() {
                assert(all[i] == reduce_part[i - 4 - stop_part.len()]);
            } else if i >= 4 {
                assert(all[i] == stop_part[i - 4]);
            }
        }
        assert(!all.contains(("timeInForce"@, time_in_force)));
    }
    if reduce_only {
        assert(all == base + seq![("reduceOnly"@, "true"@)]);
        assert(all[all.len() - 1] == ("reduceOnly"@, "true"@));
    } else {
        assert(all =~= base);
        assert forall|i: int| 0 <= i < all.len() implies all[i] != ("reduceOnly"@, "true"@) by {
            assert(base[i].0.len() != 10);
        }
    }
}

/// Law: a futures order is a signed POST of /fapi/v1/order whose
/// parameters begin with the normalized symbol, the side, the type and the
/// quantity; for every order type, they carry `reduceOnly=true` exactly
/// when the order is reduce-only, and the stop price whenever one is given;
/// the time in force exactly when the order is a LIMIT order (of any letter
/// case), which also carries its price when one is given; nothing else.
pub proof fn law_futures_order_parameters(cmd: FuturesCommand, plan: FuturesPlan)
    requires
        futures_planned(cmd, plan),
        cmd is Order,
    ensures
        match cmd {
            FuturesCommand::Order {
                pair,
                side,
                order_type,
                volume,
                price,
                time_in_force,
                stop_price,
                reduce_only,
            } => plan.call matches FuturesCall::Private { method, path, params } && {
                let ps = params_view(params@);
                &&& method == HttpMethod::Post
                &&& path@ == "/fapi/v1/order"@
                &&& ps.len() >= 4
                &&& ps.take(4) == seq![
                    ("symbol"@, api_symbol(pair@)),
                    ("side"@, side@),
                    ("type"@, order_type@),
                    ("quantity"@, volume@),
                ]
                &&& ps.contains(("reduceOnly"@, "true"@)) <==> reduce_only
                &&& ps.contains(("timeInForce"@, time_in_force@)) <==> upper_case(order_type@)
                    == "LIMIT"@
                &&& ps.len() == 4 + (if upper_case(order_type@) == "LIMIT"@ {
                    1 + (if price is Some { 1int } else { 0 })
                } else {
                    0
                }) + (if stop_price is Some { 1int } else { 0 }) + (if reduce_only { 1int } else { 0 })
                &&& stop_price matches Some(v) ==> ps.contains(("stopPrice"@, v@))
                &&& (upper_case(order_type@) == "LIMIT"@ && price is Some) ==> ps.contains(
                    ("price"@, price.unwrap()@),
                )
            },
            _ => true,
        },
{
    match cmd {
        FuturesCommand::Order {
            pair,
            side,
            order_type,
            volume,
            price,
            time_in_force,
            stop_price,
            reduce_only,
        } => {
            lemma_order_params_reduce_only(
                pair@,
                side@,
                order_type@,
                volume@,
                price,
                time_in_force@,
                stop_price,
                reduce_only,
            );
            let head = seq![
                ("symbol"@, api_symbol(pair@)),
                ("side"@, side@),
                ("type"@, order_type@),
                ("quantity"@, volume@),
            ];
            let limit_part = if upper_case(order_type@) == "LIMIT"@ {
                seq![("timeInForce"@, time_in_force@)] + optional_param("price"@, price)
            } else {
                Seq::empty()
            };
            let stop_part = optional_param("stopPrice"@, stop_price);
            let reduce_part = if reduce_only {
                seq![("reduceOnly"@, "true"@)]
            } else {
                Seq::<(Seq<char>, Seq<char>)>::empty()
            };
            let ps = order_params(
                pair@,
                side@,
                order_type@,
                volume@,
                price,
                time_in_force@,
                stop_price,
                reduce_only,
            );
            assert(ps == head + limit_part + stop_part + reduce_part);
            assert(ps.take(4) =~= head);
            if let Some(v) = stop_price {
                let k: int = (head.len() + limit_part.len()) as int;
                assert(ps[k] == ("stopPrice"@, v@));
            }
            if upper_case(order_type@) == "LIMIT"@ && price is Some {
                assert(ps[5] == ("price"@, price.unwrap()@));
            }
        },
        _ => {},
    }
}

/// Law: the signature that goes with a private request is computed over
/// exactly the query text that the URL carries before "&signature=", which
/// ends with the timestamp parameter.
pub proof fn law_signature_covers_the_query(
    secret: Seq<char>,
    path: Seq<char>,
    params: Seq<(Seq<char>, Seq<char>)>,
    timestamp: int,
)
    ensures
        ({
            let payload = signing_payload(params, timestamp);
            &&& signed_url(path, payload, signature_of(secret, payload)) == FUTURES_HOST@ + path
                + "?"@ + payload + "&signature="@ + signature_of(secret, payload)
            &&& payload.len() >= ("timestamp="@ + signed_decimal(timestamp)).len()
            &&& payload.subrange(
                payload.len() - ("timestamp="@ + signed_decimal(timestamp)).len(),
                payload.len() as int,
            ) == "timestamp="@ + signed_decimal(timestamp)
        }),
{
    let all = params.push(("timestamp"@, signed_decimal(timestamp)));
    let payload = signing_payload(params, timestamp);
    let tail = "timestamp"@ + "="@ + signed_decimal(timestamp);
    assert("timestamp="@ =~= "timestamp"@ + "="@) by {
        reveal_strlit("timestamp=");
        reveal_strlit("timestamp");
        reveal_strlit("=");
    }
    assert(all.drop_last() =~= params);
    if params.len() == 0 {
        assert(payload == param_text(all[0]));
        assert(payload =~= "timestamp="@ + signed_decimal(timestamp));
    } else {
        let head = query_text(params) + "&"@;
        assert(payload == head + param_text(all.last()));
        assert(payload.subrange(
            payload.len() - ("timestamp="@ + signed_decimal(timestamp)).len(),
            payload.len() as int,
        ) =~= "timestamp="@ + signed_decimal(timestamp));
    }
}

/// The error that a private futures response reports: a response that holds
/// both a "code" and a "msg" key is an API error with that code (-1 when it
/// is not an integer) and that message ("Unknown API error" when it is not
/// a string).
pub open spec fn futures_reply_error(code: JsonField, msg: JsonField, e: Option<BinanceError>) -> bool {
    if code is Absent || msg is Absent {
        e is None
    } else {
        e matches Some(BinanceError::Api { code: c, message: m }) && c == (match code {
            JsonField::Integer(n) => n,
            _ => -1i64,
        }) && m@ == (match msg {
            JsonField::Text(t) => t@,
            _ => "Unknown API error"@,
        })
    }
}

/// Checks a private futures response for an API error.
pub fn check_futures_reply(code: &JsonField, msg: &JsonField) -> (r: Option<BinanceError>)
    ensures
        futures_reply_error(*code, *msg, r),
{
    match (code, msg) {
        (JsonField::Absent, _) => None,
        (_, JsonField::Absent) => None,
        _ => {
            let c: i64 = match code {
                JsonField::Integer(n) => *n,
                _ => -1,
            };
            let m = match msg {
                JsonField::Text(t) => t.clone(),
                _ => String::from_str("Unknown API error"),
            };
            Some(BinanceError::Api { code: c, message: m })
        },
    }
}

/// Law: hex text has two characters per byte.
pub proof fn law_hex_length(d: Seq<u8>)
    ensures
        lower_hex(d).len() == 2 * d.len(),
    decreases d.len(),
{
    if d.len() > 0 {
        law_hex_length(d.drop_last());
    }
}

} // verus!
