//! A simulated adapter that fills every order at once, for development
//! and tests.

use vstd::prelude::*;
use vstd::string::StringExecFns;
use crate::model::{ExecutionResult, MarketData, Order, OrderSide, PluginError, UNITS_PER_WHOLE};
use crate::plugin::ExecutionPlugin;
use crate::text::str_eq;

verus! {

/// Relies on uuid's `Uuid::new_v4` and its hyphenated text form, which
/// is 36 characters long.
#[verifier::external_body]
fn random_uuid_text() -> (r: String)
    ensures
        r@.len() == 36,
{
    uuid::Uuid::new_v4().to_string()
}

/// Relies on chrono's `Utc::now().timestamp_millis()`: the current time.
#[verifier::external_body]
pub(crate) fn now_millis() -> (r: i64) {
    chrono::Utc::now().timestamp_millis()
}

/// Price assumed when an order names none: 67500.
pub const MOCK_DEFAULT_PRICE: u64 = 67500 * UNITS_PER_WHOLE;

/// Simulated fill price: the requested price (or the assumed one) moved by
/// one ten-thousandth against the taker, bounded by the integer range.
pub open spec fn mock_fill_price(side: OrderSide, price: Option<u64>) -> u64 {
    let base = match price {
        Some(p) => p,
        None => MOCK_DEFAULT_PRICE,
    };
    let slip = base / 10000;
    match side {
        OrderSide::Buy => if base + slip <= u64::MAX {
            (base + slip) as u64
        } else {
            u64::MAX
        },
        OrderSide::Sell => (base - slip) as u64,
    }
}

/// Simulated reference price of a symbol.
pub open spec fn mock_base_price(symbol: Seq<char>) -> u64 {
    if symbol == "BTC/USDT"@ || symbol == "BTCUSDT"@ {
        (67500 * UNITS_PER_WHOLE) as u64
    } else if symbol == "ETH/USDT"@ || symbol == "ETHUSDT"@ {
        (3500 * UNITS_PER_WHOLE) as u64
    } else if symbol == "ES"@ {
        (4420 * UNITS_PER_WHOLE) as u64
    } else if symbol == "EURUSD"@ {
        108_500_000
    } else {
        (100 * UNITS_PER_WHOLE) as u64
    }
}

/// Simulated trading volume of every symbol: one million.
pub const MOCK_VOLUME: u64 = 1_000_000 * UNITS_PER_WHOLE;

/// Simulated adapter.
pub struct MockPlugin {
    name: String,
    is_initialized: bool,
}

impl MockPlugin {
    /// A fresh, uninitialized adapter called `name`.
    pub fn new(name: &str) -> (r: MockPlugin)
        ensures
            r.spec_name() == name@,
            !r.initialized(),
    {
        MockPlugin { name: String::from_str(name), is_initialized: false }
    }

    /// Marks the adapter ready; always succeeds.
    pub fn init(&mut self) -> (r: Result<(), PluginError>)
        ensures
            r is Ok,
            final(self).initialized(),
            final(self).spec_name() == old(self).spec_name(),
    {
        self.is_initialized = true;
        Ok(())
    }

    /// Whether `init` has run.
    pub fn is_initialized(&self) -> (r: bool)
        ensures
            r == self.initialized(),
    {
        self.is_initialized
    }

    /// The simulated fill price of an order.
    pub fn fill_price(side: OrderSide, price: Option<u64>) -> (r: u64)
        ensures
            r == mock_fill_price(side, price),
    {
        let base = match price {
            Some(p) => p,
            None => MOCK_DEFAULT_PRICE,
        };
        let slip = base / 10000;
        match side {
            OrderSide::Buy => if base <= u64::MAX - slip {
                base + slip
            } else {
                u64::MAX
            },
            OrderSide::Sell => base - slip,
        }
    }

    /// The simulated reference price of a symbol.
    pub fn base_price(symbol: &str) -> (r: u64)
        ensures
            r == mock_base_price(symbol@),
    {
        if str_eq(symbol, "BTC/USDT") || str_eq(symbol, "BTCUSDT") {
            67500 * UNITS_PER_WHOLE
        } else if str_eq(symbol, "ETH/USDT") || str_eq(symbol, "ETHUSDT") {
            3500 * UNITS_PER_WHOLE
        } else if str_eq(symbol, "ES") {
            4420 * UNITS_PER_WHOLE
        } else if str_eq(symbol, "EURUSD") {
            108_500_000
        } else {
            100 * UNITS_PER_WHOLE
        }
    }
}

impl ExecutionPlugin for MockPlugin {
    closed spec fn initialized(&self) -> bool {
        self.is_initialized
    }

    closed spec fn spec_name(&self) -> Seq<char> {
        self.name@
    }

    closed spec fn execute_post(&self, order: Order, r: Result<ExecutionResult, PluginError>) -> bool {
        if self.is_initialized {
            &&& r is Ok
            &&& r->Ok_0.success
            &&& r->Ok_0.order_id is Some
            &&& r->Ok_0.error is None
            &&& r->Ok_0.filled_quantity == order.quantity
            &&& r->Ok_0.average_price == mock_fill_price(order.side, order.price)
        } else {
            r == Err::<ExecutionResult, PluginError>(PluginError::NotInitialized)
        }
    }

    closed spec fn fetch_post(&self, symbol: Seq<char>, r: Result<MarketData, PluginError>) -> bool {
        if self.is_initialized {
            let base = mock_base_price(symbol);
            let half = base / 10000 / 2;
            &&& r is Ok
            &&& r->Ok_0.symbol@ == symbol
            &&& r->Ok_0.last == base
            &&& r->Ok_0.bid == base - half
            &&& r->Ok_0.ask == base + half
            &&& r->Ok_0.volume == MOCK_VOLUME
        } else {
            r == Err::<MarketData, PluginError>(PluginError::NotInitialized)
        }
    }

    closed spec fn health_post(&self, healthy: bool) -> bool {
        healthy == self.is_initialized
    }

    fn execute_order(&self, order: Order) -> (r: Result<ExecutionResult, PluginError>) {
        if !self.is_initialized {
            return Err(PluginError::NotInitialized);
        }
        let price = MockPlugin::fill_price(order.side, order.price);
        let order_id = String::from_str("MOCK-").concat(random_uuid_text().as_str());
        Ok(ExecutionResult {
            success: true,
            order_id: Some(order_id),
            filled_quantity: order.quantity,
            average_price: price,
            error: None,
            timestamp: now_millis(),
        })
    }

    fn fetch_data(&self, symbol: &str) -> (r: Result<MarketData, PluginError>) {
        if !self.is_initialized {
            return Err(PluginError::NotInitialized);
        }
        let base = MockPlugin::base_price(symbol);
        let half = base / 10000 / 2;
        let mut extra: Vec<(String, String)> = Vec::new();
        extra.push((String::from_str("source"), String::from_str("mock")));
        Ok(MarketData {
            symbol: String::from_str(symbol),
            bid: base - half,
            ask: base + half,
            last: base,
            volume: MOCK_VOLUME,
            timestamp: now_millis(),
            extra,
        })
    }

    fn name(&self) -> (r: &str) {
        self.name.as_str()
    }

    fn health_check(&self) -> (r: bool) {
        self.is_initialized
    }
}

} // verus!
