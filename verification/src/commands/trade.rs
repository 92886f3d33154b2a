//! Spot trading commands: the validation of new orders, the request each
//! command sends, and the title and addendum of its output.
use vstd::prelude::*;

use crate::config::{require_credentials, Credentials, CREDENTIALS_REQUIRED};
use crate::errors::BinanceError;
use crate::{api_symbol, normalize_pair};
use crate::numbers::{parse_decimal, parsed_decimal, DecimalValue};
use crate::text::{append_decimal, decimal, joined, same_text, to_upper, upper_case};

verus! {

#[derive(Debug)]
pub enum TradeCommand {
    /// Place a buy order
    Buy {
        symbol: String,
        order_type: String,
        price: Option<String>,
        quantity: String,
        client_order_id: Option<String>,
    },
    /// Place a sell order
    Sell {
        symbol: String,
        order_type: String,
        price: Option<String>,
        quantity: String,
        client_order_id: Option<String>,
    },
    /// Cancel an active order
    Cancel { symbol: String, order_id: u64 },
    /// Cancel all active orders for a symbol
    CancelAll { symbol: String },
    /// Query a specific order's status
    Query { symbol: String, order_id: u64 },
    /// List current open orders
    OpenOrders { symbol: Option<String> },
    /// List all orders (active, canceled, filled)
    AllOrders { symbol: String, order_id: Option<u64>, limit: u32 },
}

#[derive(Debug, Clone, Copy, PartialEq, Eq)]
pub enum Side {
    Buy,
    Sell,
}

impl Side {
    /// The side as the exchange names it.
    pub fn name(&self) -> (r: &'static str)
        ensures
            r@ == side_name(*self),
    {
        match self {
            Side::Buy => "BUY",
            Side::Sell => "SELL",
        }
    }
}

pub open spec fn side_name(s: Side) -> Seq<char> {
    match s {
        Side::Buy => "BUY"@,
        Side::Sell => "SELL"@,
    }
}

/// A validated new order: symbol normalized, type upper-cased, the quantity parsed,
/// and for LIMIT orders the parsed price (sent good-till-cancelled).
#[derive(Debug)]
pub struct OrderPlan {
    pub symbol: String,
    pub side: Side,
    pub order_type: String,
    pub quantity: DecimalValue,
    pub limit_price: Option<DecimalValue>,
    pub client_order_id: Option<String>,
}

pub open spec fn decimal_of(t: (i128, u32, bool)) -> DecimalValue {
    DecimalValue { mantissa: t.0, scale: t.1, negative: t.2 }
}

/// Whether `r` is the outcome of validating a new order: the quantity must
/// parse, and a LIMIT order (of any letter case) must carry a price that
/// parses; the first failure is reported as a validation error.
pub open spec fn order_validated(
    symbol: Seq<char>,
    side: Side,
    order_type: Seq<char>,
    price: Option<String>,
    quantity: Seq<char>,
    client_order_id: Option<String>,
    r: Result<OrderPlan, BinanceError>,
) -> bool {
    let otype = upper_case(order_type);
    match parsed_decimal(quantity) {
        Err(e) => r matches Err(BinanceError::Validation(m)) && m@ == "Invalid quantity '"@
            + quantity + "': "@ + e,
        Ok(q) => if otype == "LIMIT"@ {
            match price {
                None => r matches Err(BinanceError::Validation(m)) && m@
                    == "Price is required for LIMIT orders"@,
                Some(p) => match parsed_decimal(p@) {
                    Err(e) => r matches Err(BinanceError::Validation(m)) && m@ == "Invalid price '"@
                        + p@ + "': "@ + e,
                    Ok(pv) => r matches Ok(o) && o.symbol@ == api_symbol(symbol) && o.side == side
                        && o.order_type@ == otype && o.quantity == decimal_of(q) && o.limit_price
                        == Some(decimal_of(pv)) && o.client_order_id == client_order_id,
                },
            }
        } else {
            r matches Ok(o) && o.symbol@ == api_symbol(symbol) && o.side == side && o.order_type@
                == otype && o.quantity == decimal_of(q) && o.limit_price is None
                && o.client_order_id == client_order_id
        },
    }
}

/// "`prefix``text``middle``detail`".
fn quoted_error(prefix: &str, text: &str, detail: &String) -> (r: BinanceError)
    ensures
        r matches BinanceError::Validation(m) && m@ == prefix@ + text@ + "': "@ + detail@,
{
    let mut m = joined(prefix, text);
    m.append("': ");
    m.append(detail.as_str());
    BinanceError::Validation(m)
}

/// Validates a new order and prepares what it sends.
pub fn plan_order(
    symbol: &str,
    side: Side,
    order_type: &str,
    price: &Option<String>,
    quantity: &str,
    client_order_id: &Option<String>,
) -> (r: Result<OrderPlan, BinanceError>)
    ensures
        order_validated(symbol@, side, order_type@, *price, quantity@, *client_order_id, r),
{
    let sym = normalize_pair(symbol);
    let otype = to_upper(order_type);
    let qty = match parse_decimal(quantity) {
        Ok(q) => q,
        Err(e) => return Err(quoted_error("Invalid quantity '", quantity, &e)),
    };
    let mut limit_price: Option<DecimalValue> = None;
    if same_text(otype.as_str(), "LIMIT") {
        let p = match price {
            Some(p) => p,
            None => {
                return Err(
                    BinanceError::Validation(String::from_str("Price is required for LIMIT orders")),
                )
            },
        };
        let pv = match parse_decimal(p.as_str()) {
            Ok(v) => v,
            Err(e) => return Err(quoted_error("Invalid price '", p.as_str(), &e)),
        };
        limit_price = Some(pv);
    }
    Ok(
        OrderPlan {
            symbol: sym,
            side,
            order_type: otype,
            quantity: qty,
            limit_price,
            client_order_id: client_order_id.clone(),
        },
    )
}

/// The summary shown after an order was placed, when the response carries
/// an order id: side, quantity, symbol, the price that the response reports
/// (else the requested price, else "MARKET"), and the order id.
pub open spec fn order_summary(
    side: Side,
    quantity: Seq<char>,
    symbol: Seq<char>,
    reported_price: Option<String>,
    requested_price: Option<String>,
    order_id: Option<String>,
) -> Option<Seq<char>> {
    match order_id {
        None => None,
        Some(id) => {
            let price = match reported_price {
                Some(p) => p@,
                None => match requested_price {
                    Some(p) => p@,
                    None => "MARKET"@,
                },
            };
            Some(
                side_name(side) + " "@ + quantity + " "@ + symbol + " @ "@ + price
                    + " — Order ID: "@ + id@,
            )
        },
    }
}

/// The addendum of a placed order.
pub fn order_addendum(
    side: Side,
    quantity: &str,
    symbol: &str,
    reported_price: &Option<String>,
    requested_price: &Option<String>,
    order_id: &Option<String>,
) -> (r: Option<String>)
    ensures
        r.deep_view() == order_summary(
            side,
            quantity@,
            symbol@,
            *reported_price,
            *requested_price,
            *order_id,
        ),
{
    match order_id {
        None => None,
        Some(id) => {
            let mut s = String::from_str(side.name());
            s.append(" ");
            s.append(quantity);
            s.append(" ");
            s.append(symbol);
            s.append(" @ ");
            match reported_price {
                Some(p) => s.append(p.as_str()),
                None => match requested_price {
                    Some(p) => s.append(p.as_str()),
                    None => s.append("MARKET"),
                },
            }
            s.append(" — Order ID: ");
            s.append(id.as_str());
            Some(s)
        },
    }
}


/// The spot trading request that a command sends, symbols normalized.
#[derive(Debug)]
pub enum TradeRequest {
    NewOrder(OrderPlan),
    CancelOrder { symbol: String, order_id: u64 },
    CancelOpenOrders { symbol: String },
    GetOrder { symbol: String, order_id: u64 },
    OpenOrders { symbol: Option<String> },
    AllOrders { symbol: String, limit: u32, order_id: Option<u64> },
}

/// The request of a trading command, and the title and addendum of its
/// output (a new order's addendum depends on the response).
#[derive(Debug)]
pub struct TradePlan {
    pub request: TradeRequest,
    pub title: String,
    pub addendum: Option<String>,
}

/// Whether `r` is the plan of the trading command `cmd`.
pub open spec fn trade_planned(cmd: TradeCommand, r: Result<TradePlan, BinanceError>) -> bool {
    match cmd {
        TradeCommand::Buy { symbol, order_type, price, quantity, client_order_id } => {
            exists|o: Result<OrderPlan, BinanceError>|
                order_validated(symbol@, Side::Buy, order_type@, price, quantity@, client_order_id, o)
                    && match o {
                    Ok(op) => r matches Ok(p) && p.request == TradeRequest::NewOrder(op) && p.title@
                        == "Order Result"@ && p.addendum is None,
                    Err(e) => r == Err::<TradePlan, BinanceError>(e),
                }
        },
        TradeCommand::Sell { symbol, order_type, price, quantity, client_order_id } => {
            exists|o: Result<OrderPlan, BinanceError>|
                order_validated(symbol@, Side::Sell, order_type@, price, quantity@, client_order_id, o)
                    && match o {
                    Ok(op) => r matches Ok(p) && p.request == TradeRequest::NewOrder(op) && p.title@
                        == "Order Result"@ && p.addendum is None,
                    Err(e) => r == Err::<TradePlan, BinanceError>(e),
                }
        },
        TradeCommand::Cancel { symbol, order_id } => r matches Ok(p) && p.request matches TradeRequest::CancelOrder { symbol: s, order_id: i } && s@ == api_symbol(symbol@) && i == order_id && p.title@ == "Cancel Result"@ && p.addendum is Some && p.addendum.unwrap()@ == "Order "@ + decimal(order_id as nat) + " cancelled"@,
        TradeCommand::CancelAll { symbol } => r matches Ok(p) && p.request matches TradeRequest::CancelOpenOrders { symbol: s } && s@ == api_symbol(symbol@) && p.title@ == "Cancel All Open Orders — "@ + api_symbol(symbol@) && p.addendum is Some && p.addendum.unwrap()@ == "All open orders for "@ + api_symbol(symbol@) + " cancelled successfully"@,
        TradeCommand::Query { symbol, order_id } => r matches Ok(p) && p.request matches TradeRequest::GetOrder { symbol: s, order_id: i } && s@ == api_symbol(symbol@) && i == order_id && p.title@ == "Order "@ + decimal(order_id as nat) + " — "@ + api_symbol(symbol@) && p.addendum is None,
        TradeCommand::OpenOrders { symbol } => r matches Ok(p) && p.request matches TradeRequest::OpenOrders { symbol: s } && p.addendum is None && match symbol {
            Some(sym) => s matches Some(t) && t@ == api_symbol(sym@) && p.title@ == "Open Orders — "@ + api_symbol(sym@),
            None => s is None && p.title@ == "Open Orders (All Symbols)"@,
        },
        TradeCommand::AllOrders { symbol, order_id, limit } => r matches Ok(p) && p.request matches TradeRequest::AllOrders { symbol: s, limit: l, order_id: i } && s@ == api_symbol(symbol@) && l == limit && i == order_id && p.title@ == "All Orders — "@ + api_symbol(symbol@) && p.addendum is None,
    }
}

fn new_order_plan(r: Result<OrderPlan, BinanceError>) -> (t: Result<TradePlan, BinanceError>)
    ensures
        match r {
            Ok(op) => t matches Ok(p) && p.request == TradeRequest::NewOrder(op) && p.title@
                == "Order Result"@ && p.addendum is None,
            Err(e) => t == Err::<TradePlan, BinanceError>(e),
        },
{
    match r {
        Ok(op) => Ok(
            TradePlan {
                request: TradeRequest::NewOrder(op),
                title: String::from_str("Order Result"),
                addendum: None,
            },
        ),
        Err(e) => Err(e),
    }
}

impl TradeCommand {
    /// The plan of this command for a client with the given credentials:
    /// without credentials, the authentication error, before any check of
    /// the command's own arguments; with them, the plan.
    pub fn plan_authorized(&self, credentials: &Option<Credentials>) -> (r: Result<TradePlan, BinanceError>)
        ensures
            match credentials {
                Some(_) => trade_planned(*self, r),
                None => r matches Err(BinanceError::Auth(m)) && m@ == CREDENTIALS_REQUIRED@,
            },
    {
        match require_credentials(credentials) {
            Ok(_) => self.plan(),
            Err(e) => Err(e),
        }
    }

    /// The request that this command sends and the title and addendum of
    /// its output, or the validation error of a malformed new order.
    pub fn plan(&self) -> (r: Result<TradePlan, BinanceError>)
        ensures
            trade_planned(*self, r),
    {
        match self {
            TradeCommand::Buy { symbol, order_type, price, quantity, client_order_id } => {
                let o = plan_order(
                    symbol.as_str(),
                    Side::Buy,
                    order_type.as_str(),
                    price,
                    quantity.as_str(),
                    client_order_id,
                );
                let ghost og = o;
                let t = new_order_plan(o);
                assert(order_validated(symbol@, Side::Buy, order_type@, *price, quantity@, *client_order_id, og));
                t
            },
            TradeCommand::Sell { symbol, order_type, price, quantity, client_order_id } => {
                let o = plan_order(
                    symbol.as_str(),
                    Side::Sell,
                    order_type.as_str(),
                    price,
                    quantity.as_str(),
                    client_order_id,
                );
                let ghost og = o;
                let t = new_order_plan(o);
                assert(order_validated(symbol@, Side::Sell, order_type@, *price, quantity@, *client_order_id, og));
                t
            },
            TradeCommand::Cancel { symbol, order_id } => {
                let sym = normalize_pair(symbol.as_str());
                let mut a = String::from_str("Order ");
                append_decimal(&mut a, *order_id);
                a.append(" cancelled");
                Ok(
                    TradePlan {
                        request: TradeRequest::CancelOrder { symbol: sym, order_id: *order_id },
                        title: String::from_str("Cancel Result"),
                        addendum: Some(a),
                    },
                )
            },
            TradeCommand::CancelAll { symbol } => {
                let sym = normalize_pair(symbol.as_str());
                let title = joined("Cancel All Open Orders — ", sym.as_str());
                let mut a = joined("All open orders for ", sym.as_str());
                a.append(" cancelled successfully");
                Ok(
                    TradePlan {
                        request: TradeRequest::CancelOpenOrders { symbol: sym },
                        title,
                        addendum: Some(a),
                    },
                )
            },
            TradeCommand::Query { symbol, order_id } => {
                let sym = normalize_pair(symbol.as_str());
                let mut title = String::from_str("Order ");
                append_decimal(&mut title, *order_id);
                title.append(" — ");
                title.append(sym.as_str());
                Ok(
                    TradePlan {
                        request: TradeRequest::GetOrder { symbol: sym, order_id: *order_id },
                        title,
                        addendum: None,
                    },
                )
            },
            TradeCommand::OpenOrders { symbol } => match symbol {
                Some(s) => {
                    let sym = normalize_pair(s.as_str());
                    let title = joined("Open Orders — ", sym.as_str());
                    Ok(
                        TradePlan {
                            request: TradeRequest::OpenOrders { symbol: Some(sym) },
                            title,
                            addendum: None,
                        },
                    )
                },
                None => Ok(
                    TradePlan {
                        request: TradeRequest::OpenOrders { symbol: None },
                        title: String::from_str("Open Orders (All Symbols)"),
                        addendum: None,
                    },
                ),
            },
            TradeCommand::AllOrders { symbol, order_id, limit } => {
                let sym = normalize_pair(symbol.as_str());
                let title = joined("All Orders — ", sym.as_str());
                Ok(
                    TradePlan {
                        request: TradeRequest::AllOrders { symbol: sym, limit: *limit, order_id: *order_id },
                        title,
                        addendum: None,
                    },
                )
            },
        }
    }
}

} // verus!
