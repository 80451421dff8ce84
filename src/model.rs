//! Canonical order, result and quote values shared by every adapter.
//!
//! Prices and quantities are fixed-point amounts: one whole unit is
//! `UNITS_PER_WHOLE` (10^8) integer units. Confidence is counted in
//! ten-thousandths.

use vstd::prelude::*;
use vstd::string::StringExecFns;
use crate::wire::join2;

verus! {

/// Integer units in one whole price or quantity unit.
pub const UNITS_PER_WHOLE: u64 = 100_000_000;

/// Confidence used when a caller gives none: 0.6, in ten-thousandths.
pub const DEFAULT_CONFIDENCE: u32 = 6000;

/// Largest confidence value: 1.0, in ten-thousandths.
pub const MAX_CONFIDENCE: u32 = 10000;

/// Order side.
#[derive(Clone, Copy, Debug, PartialEq, Eq, Structural)]
pub enum OrderSide {
    Buy,
    Sell,
}

/// Order type.
#[derive(Clone, Copy, Debug, PartialEq, Eq, Structural)]
pub enum OrderType {
    Market,
    Limit,
    Stop,
    StopLimit,
    TakeProfit,
    StopLoss,
}

/// A venue-agnostic trade instruction.
#[derive(Clone, Debug)]
pub struct Order {
    /// Trading symbol, such as "BTC/USDT" or "RELIANCE".
    pub symbol: String,
    pub side: OrderSide,
    pub order_type: OrderType,
    /// Quantity in fixed-point units.
    pub quantity: u64,
    /// Limit price in fixed-point units.
    pub price: Option<u64>,
    pub stop_loss: Option<u64>,
    pub take_profit: Option<u64>,
    /// Confidence in ten-thousandths.
    pub confidence: u32,
}

/// What an adapter reports after trying to place an order.
#[derive(Clone, Debug)]
pub struct ExecutionResult {
    pub success: bool,
    /// Identifier that the venue gave the order.
    pub order_id: Option<String>,
    /// Filled quantity in fixed-point units.
    pub filled_quantity: u64,
    /// Average fill price in fixed-point units.
    pub average_price: u64,
    /// Why the order failed; set only when `success` is false.
    pub error: Option<String>,
    /// Epoch milliseconds.
    pub timestamp: i64,
}

/// A market snapshot for one symbol.
#[derive(Clone, Debug)]
pub struct MarketData {
    pub symbol: String,
    pub bid: u64,
    pub ask: u64,
    pub last: u64,
    pub volume: u64,
    /// Epoch milliseconds.
    pub timestamp: i64,
    /// Venue-specific key/value pairs.
    pub extra: Vec<(String, String)>,
}

/// Errors raised to the caller instead of being folded into a result.
#[derive(Clone, Debug, PartialEq, Eq)]
pub enum PluginError {
    /// An operation was called before a successful `init`.
    NotInitialized,
    /// A required credential was missing or empty.
    InvalidConfig(String),
    /// The request did not complete.
    Transport(String),
    /// The venue answered with a non-success code.
    VenueRejected(String),
    /// The reply did not match the expected shape.
    Decode(String),
    /// No adapter is registered under the given name.
    RegistryNotFound(String),
    /// No name was given and no default adapter is set.
    RegistryNoDefault,
}

impl PluginError {
    /// Human-readable text of the error.
    pub open spec fn spec_message(&self) -> Seq<char> {
        match self {
            PluginError::NotInitialized => "Plugin not initialized"@,
            PluginError::InvalidConfig(m) => m@,
            PluginError::Transport(m) => m@,
            PluginError::VenueRejected(m) => m@,
            PluginError::Decode(m) => m@,
            PluginError::RegistryNotFound(n) => "Plugin '"@ + n@ + "' not found"@,
            PluginError::RegistryNoDefault => "No default plugin configured"@,
        }
    }

    /// Human-readable text of the error.
    pub fn message(&self) -> (r: String)
        ensures
            r@ == self.spec_message(),
    {
        match self {
            PluginError::NotInitialized => String::from_str("Plugin not initialized"),
            PluginError::InvalidConfig(m) => m.clone(),
            PluginError::Transport(m) => m.clone(),
            PluginError::VenueRejected(m) => m.clone(),
            PluginError::Decode(m) => m.clone(),
            PluginError::RegistryNotFound(n) => join2("Plugin '", n.as_str()).concat("' not found"),
            PluginError::RegistryNoDefault => String::from_str("No default plugin configured"),
        }
    }
}

/// The confidence that an order gets when none is given.
pub fn default_confidence() -> (r: u32)
    ensures
        r == DEFAULT_CONFIDENCE,
{
    DEFAULT_CONFIDENCE
}

/// Result invariant: an error message only on failure.
pub open spec fn result_consistent(r: ExecutionResult) -> bool {
    r.error is Some ==> !r.success
}

/// Quantity reported as filled right after placement: market orders are
/// taken to fill at once, every other type starts at zero.
pub open spec fn spec_filled_quantity(order_type: OrderType, quantity: u64) -> u64 {
    if order_type == OrderType::Market {
        quantity
    } else {
        0
    }
}

/// Average price reported right after placement: for a market order the
/// live quote when one was had, else the requested price; for other types
/// the requested price; zero where there is none.
pub open spec fn spec_average_price(
    order_type: OrderType,
    price: Option<u64>,
    quote: Option<u64>,
) -> u64 {
    if order_type == OrderType::Market && quote is Some {
        quote->Some_0
    } else {
        match price {
            Some(p) => p,
            None => 0,
        }
    }
}

/// Right after placement a market order counts as filled for its whole
/// quantity, and an order of any other type as not filled at all.
pub proof fn law_immediate_fill(order_type: OrderType, quantity: u64)
    ensures
        order_type == OrderType::Market ==> spec_filled_quantity(order_type, quantity) == quantity,
        order_type != OrderType::Market ==> spec_filled_quantity(order_type, quantity) == 0,
{
}

/// Result of an order that the venue accepted.
pub fn placed_result(
    order: &Order,
    order_id: Option<String>,
    quote: Option<u64>,
    timestamp: i64,
) -> (r: ExecutionResult)
    ensures
        r.success,
        r.order_id == order_id,
        r.error is None,
        r.filled_quantity == spec_filled_quantity(order.order_type, order.quantity),
        r.average_price == spec_average_price(order.order_type, order.price, quote),
        r.timestamp == timestamp,
{
    let filled_quantity = match order.order_type {
        OrderType::Market => order.quantity,
        _ => 0,
    };
    let average_price = match (order.order_type, quote) {
        (OrderType::Market, Some(q)) => q,
        _ => match order.price {
            Some(p) => p,
            None => 0,
        },
    };
    ExecutionResult {
        success: true,
        order_id,
        filled_quantity,
        average_price,
        error: None,
        timestamp,
    }
}

/// Result of an order that the venue refused.
pub fn rejected_result(error: String, timestamp: i64) -> (r: ExecutionResult)
    ensures
        !r.success,
        r.order_id is None,
        r.filled_quantity == 0,
        r.average_price == 0,
        r.error == Some(error),
        r.timestamp == timestamp,
{
    ExecutionResult {
        success: false,
        order_id: None,
        filled_quantity: 0,
        average_price: 0,
        error: Some(error),
        timestamp,
    }
}

} // verus!
