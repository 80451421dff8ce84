//! Turning inbound, venue-agnostic trade signals into canonical orders,
//! routing them, and shaping the replies of the two intake endpoints.

use vstd::prelude::*;
use vstd::string::StringExecFns;
use crate::model::{ExecutionResult, Order, OrderSide, OrderType, PluginError, DEFAULT_CONFIDENCE};
use crate::plugin::ExecutionPlugin;
use crate::registry::PluginRegistry;
use crate::text::{canonical, canonical_token, lower_ascii, str_eq, to_lower_ascii};
use crate::wire::join2;

verus! {

/// An inbound trade signal; amounts in fixed-point units, confidence in
/// ten-thousandths.
#[derive(Clone, Debug)]
pub struct TradeSignal {
    pub symbol: String,
    /// "buy" or "sell", in any ASCII case.
    pub action: String,
    /// Order type word; absent means market.
    pub order_type: Option<String>,
    pub quantity: u64,
    pub price: Option<u64>,
    pub stop_loss: Option<u64>,
    pub take_profit: Option<u64>,
    pub confidence: Option<u32>,
}

/// Why a signal was not carried out.
#[derive(Clone, Debug, PartialEq, Eq)]
pub enum SignalError {
    /// The action is neither "buy" nor "sell"; holds the action as given.
    InvalidAction(String),
    /// The registry or the adapter raised an error.
    Execution(PluginError),
}

/// A routed signal's result with the signal layer taken off; an invalid
/// action never reaches routing, so its arm is never consulted.
pub open spec fn execution_part(r: Result<ExecutionResult, SignalError>) -> Result<ExecutionResult, PluginError> {
    match r {
        Ok(x) => Ok(x),
        Err(SignalError::Execution(e)) => Err(e),
        Err(SignalError::InvalidAction(_)) => Err(PluginError::NotInitialized),
    }
}

/// The side an action names, in any ASCII case.
pub open spec fn spec_parse_side(action: Seq<char>) -> Option<OrderSide> {
    if lower_ascii(action) == "buy"@ {
        Some(OrderSide::Buy)
    } else if lower_ascii(action) == "sell"@ {
        Some(OrderSide::Sell)
    } else {
        None
    }
}

/// The order type a word names, ignoring ASCII case and underscores;
/// market for any other word.
pub open spec fn spec_parse_order_type(word: Seq<char>) -> OrderType {
    let w = canonical(word);
    if w == "limit"@ {
        OrderType::Limit
    } else if w == "stop"@ {
        OrderType::Stop
    } else if w == "stoplimit"@ {
        OrderType::StopLimit
    } else if w == "takeprofit"@ {
        OrderType::TakeProfit
    } else if w == "stoploss"@ {
        OrderType::StopLoss
    } else {
        OrderType::Market
    }
}

/// The order a valid signal becomes.
pub open spec fn spec_signal_order(s: TradeSignal, side: OrderSide, o: Order) -> bool {
    &&& o.symbol@ == s.symbol@
    &&& o.side == side
    &&& o.order_type == match s.order_type {
        Some(t) => spec_parse_order_type(t@),
        None => OrderType::Market,
    }
    &&& o.quantity == s.quantity
    &&& o.price == s.price
    &&& o.stop_loss == s.stop_loss
    &&& o.take_profit == s.take_profit
    &&& o.confidence == match s.confidence {
        Some(c) => c,
        None => DEFAULT_CONFIDENCE,
    }
}

/// The side an action names.
pub fn parse_side(action: &str) -> (r: Option<OrderSide>)
    ensures
        r == spec_parse_side(action@),
{
    let lower = to_lower_ascii(action);
    if str_eq(lower.as_str(), "buy") {
        Some(OrderSide::Buy)
    } else if str_eq(lower.as_str(), "sell") {
        Some(OrderSide::Sell)
    } else {
        None
    }
}

/// The order type a word names; market for an unknown word.
pub fn parse_order_type(word: &str) -> (r: OrderType)
    ensures
        r == spec_parse_order_type(word@),
{
    let w = canonical_token(word);
    if str_eq(w.as_str(), "limit") {
        OrderType::Limit
    } else if str_eq(w.as_str(), "stop") {
        OrderType::Stop
    } else if str_eq(w.as_str(), "stoplimit") {
        OrderType::StopLimit
    } else if str_eq(w.as_str(), "takeprofit") {
        OrderType::TakeProfit
    } else if str_eq(w.as_str(), "stoploss") {
        OrderType::StopLoss
    } else {
        OrderType::Market
    }
}

/// The canonical order for a signal; fails with `InvalidAction` exactly
/// when the action is neither "buy" nor "sell".
pub fn normalize_signal(signal: TradeSignal) -> (r: Result<Order, SignalError>)
    ensures
        match spec_parse_side(signal.action@) {
            Some(side) => r is Ok && spec_signal_order(signal, side, r->Ok_0),
            None => r is Err && r->Err_0 is InvalidAction && r->Err_0->InvalidAction_0@ == signal.action@,
        },
{
    let side = match parse_side(signal.action.as_str()) {
        Some(s) => s,
        None => return Err(SignalError::InvalidAction(signal.action)),
    };
    let order_type = match &signal.order_type {
        Some(t) => parse_order_type(t.as_str()),
        None => OrderType::Market,
    };
    Ok(Order {
        symbol: signal.symbol,
        side,
        order_type,
        quantity: signal.quantity,
        price: signal.price,
        stop_loss: signal.stop_loss,
        take_profit: signal.take_profit,
        confidence: match signal.confidence {
            Some(c) => c,
            None => DEFAULT_CONFIDENCE,
        },
    })
}

/// Normalizes a signal and sends the order to the named venue, or to the
/// default one; the venue's result comes back unchanged.
pub fn route_signal<P: ExecutionPlugin>(
    registry: &PluginRegistry<P>,
    signal: TradeSignal,
    venue: Option<&str>,
) -> (r: Result<ExecutionResult, SignalError>)
    requires
        registry.wf(),
    ensures
        spec_parse_side(signal.action@) is None ==> r is Err && r->Err_0 is InvalidAction,
        spec_parse_side(signal.action@) is Some ==> r is Ok || r->Err_0 is Execution,
        spec_parse_side(signal.action@) is Some ==> exists|o: Order| #![auto]
            spec_signal_order(signal, spec_parse_side(signal.action@)->Some_0, o)
            && registry.spec_routed(o, match venue { Some(n) => Some(n@), None => None }, execution_part(r)),
{
    let order = match normalize_signal(signal) {
        Ok(o) => o,
        Err(e) => return Err(e),
    };
    let ghost o = order;
    match registry.execute_order(order, venue) {
        Ok(x) => Ok(x),
        Err(e) => Err(SignalError::Execution(e)),
    }
}

/// The reply of the webhook intake endpoint.
#[derive(Clone, Debug)]
pub struct WebhookReply {
    /// HTTP status of the reply.
    pub status_code: u16,
    pub success: bool,
    pub order_id: Option<String>,
    pub error: Option<String>,
}

/// The webhook reply for an outcome: 200 with the order id when the order
/// went through; 500 with the venue's message when it failed; 400 for an
/// unknown action; 500 for a routing or adapter error.
pub fn webhook_reply(outcome: Result<ExecutionResult, SignalError>) -> (r: WebhookReply)
    ensures
        match outcome {
            Ok(x) => if x.success {
                r.status_code == 200 && r.success && r.order_id == x.order_id && r.error is None
            } else {
                r.status_code == 500 && !r.success && r.order_id is None && r.error == x.error
            },
            Err(SignalError::InvalidAction(a)) => r.status_code == 400 && !r.success && r.order_id is None
                && r.error is Some && r.error->Some_0@ == "Invalid action: "@ + a@,
            Err(SignalError::Execution(e)) => r.status_code == 500 && !r.success && r.order_id is None
                && r.error is Some && r.error->Some_0@ == "Execution error: "@ + e.spec_message(),
        },
{
    match outcome {
        Ok(x) => if x.success {
            WebhookReply { status_code: 200, success: true, order_id: x.order_id, error: None }
        } else {
            WebhookReply { status_code: 500, success: false, order_id: None, error: x.error }
        },
        Err(SignalError::InvalidAction(a)) => WebhookReply {
            status_code: 400,
            success: false,
            order_id: None,
            error: Some(join2("Invalid action: ", a.as_str())),
        },
        Err(SignalError::Execution(e)) => WebhookReply {
            status_code: 500,
            success: false,
            order_id: None,
            error: Some(join2("Execution error: ", e.message().as_str())),
        },
    }
}

/// The reply of the order-creation endpoint.
#[derive(Clone, Debug)]
pub struct OrderReply {
    /// HTTP status of the reply.
    pub status_code: u16,
    pub success: bool,
    pub order_id: Option<String>,
    pub filled_quantity: u64,
    pub average_price: u64,
    pub error: Option<String>,
    pub timestamp: i64,
}

/// The order-creation reply for an outcome: 200 carrying the venue's
/// result as it is, whether the order went through or not; 400 for an
/// unknown side; 500 for a routing or adapter error, stamped with `now`.
pub fn order_reply(outcome: Result<ExecutionResult, SignalError>, now: i64) -> (r: OrderReply)
    ensures
        match outcome {
            Ok(x) => r.status_code == 200 && r.success == x.success && r.order_id == x.order_id
                && r.filled_quantity == x.filled_quantity && r.average_price == x.average_price
                && r.error == x.error && r.timestamp == x.timestamp,
            Err(SignalError::InvalidAction(a)) => r.status_code == 400 && !r.success && r.order_id is None
                && r.filled_quantity == 0 && r.average_price == 0 && r.timestamp == now
                && r.error is Some && r.error->Some_0@ == "Invalid side: "@ + a@,
            Err(SignalError::Execution(e)) => r.status_code == 500 && !r.success && r.order_id is None
                && r.filled_quantity == 0 && r.average_price == 0 && r.timestamp == now
                && r.error is Some && r.error->Some_0@ == "Execution error: "@ + e.spec_message(),
        },
{
    match outcome {
        Ok(x) => OrderReply {
            status_code: 200,
            success: x.success,
            order_id: x.order_id,
            filled_quantity: x.filled_quantity,
            average_price: x.average_price,
            error: x.error,
            timestamp: x.timestamp,
        },
        Err(SignalError::InvalidAction(a)) => OrderReply {
            status_code: 400,
            success: false,
            order_id: None,
            filled_quantity: 0,
            average_price: 0,
            error: Some(join2("Invalid side: ", a.as_str())),
            timestamp: now,
        },
        Err(SignalError::Execution(e)) => OrderReply {
            status_code: 500,
            success: false,
            order_id: None,
            filled_quantity: 0,
            average_price: 0,
            error: Some(join2("Execution error: ", e.message().as_str())),
            timestamp: now,
        },
    }
}

} // verus!
