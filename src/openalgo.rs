//! Adapter for a regional broker aggregator reached through a local proxy.
//!
//! No signing: trust rests with the proxy. Symbols carry their exchange as
//! a suffix ("INFY-BSE"), order types map to a four-way code, and the
//! product type follows from the symbol. The adapter decides; the caller
//! carries the HTTP traffic.

use vstd::prelude::*;
use vstd::string::StringExecFns;
use vstd::string::StrSliceExecFns;
use crate::model::{
    placed_result, rejected_result, spec_average_price, spec_filled_quantity, ExecutionResult,
    MarketData, Order, OrderSide, OrderType, PluginError, UNITS_PER_WHOLE,
};
use crate::text::{
    contains, ends_with, lower_ascii, prefix, spec_contains, spec_ends_with, str_eq,
    to_lower_ascii, to_upper, upper_of,
};
use crate::wire::{decimal_of, decimal_text, join2, join4, pair, spec_status_ok, status_ok};

verus! {

/// Request timeout used when none is configured, in seconds.
pub const DEFAULT_TIMEOUT_SECS: u64 = 30;

/// Proxy settings.
#[derive(Clone, Debug)]
pub struct OpenAlgoConfig {
    /// Base URL of the proxy.
    pub base_url: String,
    pub api_key: Option<String>,
    /// Paper trading: simulated fills on live data.
    pub sandbox_mode: bool,
    /// Broker behind the proxy.
    pub broker: String,
    pub timeout_secs: u64,
}

/// Whether a sandbox setting reads as on: "true" in any ASCII case, and on
/// when the setting is absent.
pub open spec fn spec_sandbox_setting(v: Option<Seq<char>>) -> bool {
    match v {
        Some(s) => lower_ascii(s) == "true"@,
        None => true,
    }
}

impl OpenAlgoConfig {
    /// Settings from optional overrides: the URL defaults to
    /// "http://openalgo:5000", sandbox mode to on, the broker to "paper".
    pub fn from_settings(
        base_url: Option<String>,
        api_key: Option<String>,
        sandbox: Option<String>,
        broker: Option<String>,
    ) -> (r: OpenAlgoConfig)
        ensures
            r.base_url@ == match base_url { Some(u) => u@, None => "http://openalgo:5000"@ },
            r.api_key == api_key,
            r.sandbox_mode == spec_sandbox_setting(match sandbox { Some(s) => Some(s@), None => None }),
            r.broker@ == match broker { Some(b) => b@, None => "paper"@ },
            r.timeout_secs == DEFAULT_TIMEOUT_SECS,
    {
        let sandbox_mode = match &sandbox {
            Some(s) => str_eq(to_lower_ascii(s.as_str()).as_str(), "true"),
            None => true,
        };
        OpenAlgoConfig {
            base_url: match base_url {
                Some(u) => u,
                None => String::from_str("http://openalgo:5000"),
            },
            api_key,
            sandbox_mode,
            broker: match broker {
                Some(b) => b,
                None => String::from_str("paper"),
            },
            timeout_secs: DEFAULT_TIMEOUT_SECS,
        }
    }
}

impl Default for OpenAlgoConfig {
    /// Settings with no overrides: sandbox mode on, broker "paper".
    fn default() -> (r: OpenAlgoConfig)
        ensures
            r.base_url@ == "http://openalgo:5000"@,
            r.api_key is None,
            r.sandbox_mode,
            r.broker@ == "paper"@,
            r.timeout_secs == DEFAULT_TIMEOUT_SECS,
    {
        OpenAlgoConfig::from_settings(None, None, None, None)
    }
}

/// The fields of an order request; the quantity is in whole units.
#[derive(Clone, Debug)]
pub struct OpenAlgoOrderRequest {
    pub symbol: String,
    pub exchange: String,
    /// "BUY" or "SELL".
    pub action: String,
    pub quantity: u64,
    /// "MARKET", "LIMIT", "SL" or "SL-M".
    pub order_type: String,
    /// "MIS" (intraday) or "NRML" (derivatives).
    pub product: String,
    pub price: Option<u64>,
    pub trigger_price: Option<u64>,
}

/// The reply to an order request.
#[derive(Clone, Debug)]
pub struct OpenAlgoOrderResponse {
    pub status: String,
    pub order_id: Option<String>,
    pub message: Option<String>,
}

/// The reply to a quote request, amounts in fixed-point units.
#[derive(Clone, Debug)]
pub struct OpenAlgoQuote {
    pub bid: Option<u64>,
    pub ask: Option<u64>,
    pub ltp: Option<u64>,
    pub volume: Option<u64>,
}

/// Symbol without its exchange suffix, and the exchange: "X-BSE" is X on
/// BSE, "X-NSE" is X on NSE, anything else is on NSE. The symbol is then
/// put in upper case.
pub open spec fn spec_split_symbol(symbol: Seq<char>) -> (Seq<char>, Seq<char>) {
    if spec_ends_with(symbol, "-BSE"@) {
        (symbol.subrange(0, symbol.len() - 4), "BSE"@)
    } else if spec_ends_with(symbol, "-NSE"@) {
        (symbol.subrange(0, symbol.len() - 4), "NSE"@)
    } else {
        (symbol, "NSE"@)
    }
}

/// The proxy's code for an order type.
pub open spec fn spec_order_type_code(t: OrderType) -> Seq<char> {
    match t {
        OrderType::Market => "MARKET"@,
        OrderType::Limit => "LIMIT"@,
        OrderType::Stop => "SL-M"@,
        OrderType::StopLimit => "SL"@,
        OrderType::TakeProfit => "LIMIT"@,
        OrderType::StopLoss => "SL-M"@,
    }
}

/// Product type: derivatives ("NRML") when the symbol holds "FUT" or
/// "OPT", intraday ("MIS") otherwise.
pub open spec fn spec_product_type(symbol: Seq<char>) -> Seq<char> {
    if spec_contains(symbol, "FUT"@) || spec_contains(symbol, "OPT"@) {
        "NRML"@
    } else {
        "MIS"@
    }
}

/// Whether an order reply status means acceptance.
pub open spec fn spec_accepted(status: Seq<char>) -> bool {
    status == "success"@ || status == "ok"@
}

/// The message of a rejected order: the proxy's message, or a fixed text.
pub open spec fn spec_reject_message(message: Option<String>) -> Seq<char> {
    match message {
        Some(m) => if m@.len() > 0 { m@ } else { "Order rejected by OpenAlgo"@ },
        None => "Order rejected by OpenAlgo"@,
    }
}

/// Adapter state.
pub struct OpenAlgoPlugin {
    name: String,
    config: OpenAlgoConfig,
    is_initialized: bool,
}

impl OpenAlgoPlugin {
    /// Whether `init` has run.
    pub closed spec fn initialized(&self) -> bool {
        self.is_initialized
    }

    /// The settings in force.
    pub closed spec fn spec_config(&self) -> OpenAlgoConfig {
        self.config
    }

    /// The adapter's identifier.
    pub closed spec fn spec_name(&self) -> Seq<char> {
        self.name@
    }

    /// A fresh, uninitialized adapter called `name`, with default settings.
    pub fn new(name: &str) -> (r: OpenAlgoPlugin)
        ensures
            r.spec_name() == name@,
            !r.initialized(),
            r.spec_config().sandbox_mode,
            r.spec_config().broker@ == "paper"@,
    {
        OpenAlgoPlugin { name: String::from_str(name), config: OpenAlgoConfig::default(), is_initialized: false }
    }

    /// The adapter's identifier.
    pub fn name(&self) -> (r: &str)
        ensures
            r@ == self.spec_name(),
    {
        self.name.as_str()
    }

    /// Whether `init` has run.
    pub fn is_initialized(&self) -> (r: bool)
        ensures
            r == self.initialized(),
    {
        self.is_initialized
    }

    /// The settings in force.
    pub fn config(&self) -> (r: &OpenAlgoConfig)
        ensures
            *r == self.spec_config(),
    {
        &self.config
    }

    /// Takes the given settings, or keeps the current ones when none are
    /// given, and marks the adapter ready; always succeeds.
    pub fn init(&mut self, config: Option<OpenAlgoConfig>) -> (r: Result<(), PluginError>)
        ensures
            r is Ok,
            final(self).initialized(),
            final(self).spec_config() == match config { Some(c) => c, None => old(self).spec_config() },
            final(self).spec_name() == old(self).spec_name(),
    {
        match config {
            Some(c) => {
                self.config = c;
            },
            None => {},
        }
        self.is_initialized = true;
        Ok(())
    }

    /// Symbol and exchange for the proxy.
    pub fn convert_symbol(&self, symbol: &str) -> (r: (String, String))
        ensures
            r.0@ == upper_of(spec_split_symbol(symbol@).0),
            r.1@ == spec_split_symbol(symbol@).1,
    {
        proof {
            reveal_strlit("-BSE");
            reveal_strlit("-NSE");
        }
        let n = symbol.unicode_len();
        if ends_with(symbol, "-BSE") {
            let bare = prefix(symbol, n - 4);
            (to_upper(bare.as_str()), String::from_str("BSE"))
        } else if ends_with(symbol, "-NSE") {
            let bare = prefix(symbol, n - 4);
            (to_upper(bare.as_str()), String::from_str("NSE"))
        } else {
            (to_upper(symbol), String::from_str("NSE"))
        }
    }

    /// The proxy's code for an order type.
    pub fn convert_order_type(&self, order_type: &OrderType) -> (r: String)
        ensures
            r@ == spec_order_type_code(*order_type),
    {
        let code = match order_type {
            OrderType::Market => "MARKET",
            OrderType::Limit => "LIMIT",
            OrderType::Stop => "SL-M",
            OrderType::StopLimit => "SL",
            OrderType::TakeProfit => "LIMIT",
            OrderType::StopLoss => "SL-M",
        };
        String::from_str(code)
    }

    /// Product type for a symbol.
    pub fn get_product_type(&self, symbol: &str) -> (r: String)
        ensures
            r@ == spec_product_type(symbol@),
    {
        if contains(symbol, "FUT") || contains(symbol, "OPT") {
            String::from_str("NRML")
        } else {
            String::from_str("MIS")
        }
    }

    /// Exchanges the proxy trades on.
    pub fn supported_markets(&self) -> (r: Vec<String>)
        ensures
            r@.map_values(|s: String| s@) == seq!["NSE"@, "BSE"@, "NFO"@, "MCX"@, "CDS"@],
    {
        let mut v: Vec<String> = Vec::new();
        v.push(String::from_str("NSE"));
        v.push(String::from_str("BSE"));
        v.push(String::from_str("NFO"));
        v.push(String::from_str("MCX"));
        v.push(String::from_str("CDS"));
        assert(v@.map_values(|s: String| s@) =~= seq!["NSE"@, "BSE"@, "NFO"@, "MCX"@, "CDS"@]);
        v
    }

    /// URL of the proxy's health endpoint.
    pub fn health_url(&self) -> (r: String)
        ensures
            r@ == self.spec_config().base_url@ + "/api/v1/health"@,
    {
        join2(self.config.base_url.as_str(), "/api/v1/health")
    }

    /// URL of the order endpoint; fails with `NotInitialized` before `init`.
    pub fn order_url(&self) -> (r: Result<String, PluginError>)
        ensures
            !self.initialized() ==> r == Err::<String, PluginError>(PluginError::NotInitialized),
            self.initialized() ==> r is Ok && r->Ok_0@ == self.spec_config().base_url@ + "/api/v1/orders"@,
    {
        if !self.is_initialized {
            return Err(PluginError::NotInitialized);
        }
        Ok(join2(self.config.base_url.as_str(), "/api/v1/orders"))
    }

    /// The order request for `order`; the quantity is cut to whole units.
    /// Fails with `NotInitialized` before `init`.
    pub fn order_request(&self, order: &Order) -> (r: Result<OpenAlgoOrderRequest, PluginError>)
        ensures
            !self.initialized() ==> r == Err::<OpenAlgoOrderRequest, PluginError>(PluginError::NotInitialized),
            self.initialized() ==> r is Ok && ({
                let q = r->Ok_0;
                &&& q.symbol@ == upper_of(spec_split_symbol(order.symbol@).0)
                &&& q.exchange@ == spec_split_symbol(order.symbol@).1
                &&& q.action@ == match order.side { OrderSide::Buy => "BUY"@, OrderSide::Sell => "SELL"@ }
                &&& q.quantity == order.quantity / UNITS_PER_WHOLE
                &&& q.order_type@ == spec_order_type_code(order.order_type)
                &&& q.product@ == spec_product_type(order.symbol@)
                &&& q.price == order.price
                &&& q.trigger_price == order.stop_loss
            }),
    {
        if !self.is_initialized {
            return Err(PluginError::NotInitialized);
        }
        let (symbol, exchange) = self.convert_symbol(order.symbol.as_str());
        let action = match order.side {
            OrderSide::Buy => String::from_str("BUY"),
            OrderSide::Sell => String::from_str("SELL"),
        };
        Ok(OpenAlgoOrderRequest {
            symbol,
            exchange,
            action,
            quantity: order.quantity / UNITS_PER_WHOLE,
            order_type: self.convert_order_type(&order.order_type),
            product: self.get_product_type(order.symbol.as_str()),
            price: order.price,
            trigger_price: order.stop_loss,
        })
    }

    /// Maps an order reply to a result. A non-2xx status, an undecodable
    /// body and a status other than "success"/"ok" each give a failed
    /// result with a message, never an error.
    pub fn order_outcome(
        order: &Order,
        status: u16,
        body: &str,
        reply: Option<OpenAlgoOrderResponse>,
        quote: Option<u64>,
        timestamp: i64,
    ) -> (r: ExecutionResult)
        ensures
            r.timestamp == timestamp,
            !spec_status_ok(status) ==> !r.success && r.error is Some
                && r.error->Some_0@ == "API error "@ + decimal_of(status as nat) + ": "@ + body@,
            spec_status_ok(status) && reply is None ==> !r.success && r.error is Some
                && r.error->Some_0@ == "OpenAlgo API error: malformed response"@,
            spec_status_ok(status) && reply is Some && !spec_accepted(reply->Some_0.status@) ==> !r.success
                && r.error is Some && r.error->Some_0@ == spec_reject_message(reply->Some_0.message),
            !r.success ==> r.order_id is None && r.filled_quantity == 0 && r.average_price == 0,
            r.success <==> spec_status_ok(status) && reply is Some && spec_accepted(reply->Some_0.status@),
            r.success ==> r.error is None && r.order_id == reply->Some_0.order_id
                && r.filled_quantity == spec_filled_quantity(order.order_type, order.quantity)
                && r.average_price == spec_average_price(order.order_type, order.price, quote),
            r.error is Some ==> r.error->Some_0@.len() > 0,
    {
        proof {
            reveal_strlit("API error ");
            reveal_strlit("OpenAlgo API error: malformed response");
            reveal_strlit("Order rejected by OpenAlgo");
        }
        if !status_ok(status) {
            let msg = join4("API error ", decimal_text(status as u64).as_str(), ": ", body);
            return rejected_result(msg, timestamp);
        }
        match reply {
            None => rejected_result(String::from_str("OpenAlgo API error: malformed response"), timestamp),
            Some(resp) => {
                if str_eq(resp.status.as_str(), "success") || str_eq(resp.status.as_str(), "ok") {
                    placed_result(order, resp.order_id, quote, timestamp)
                } else {
                    let msg = match resp.message {
                        Some(m) => if m.as_str().is_empty() {
                            String::from_str("Order rejected by OpenAlgo")
                        } else {
                            m
                        },
                        None => String::from_str("Order rejected by OpenAlgo"),
                    };
                    rejected_result(msg, timestamp)
                }
            },
        }
    }

    /// URL of the quote request for `symbol`; fails with `NotInitialized`
    /// before `init`.
    pub fn quote_url(&self, symbol: &str) -> (r: Result<String, PluginError>)
        ensures
            !self.initialized() ==> r == Err::<String, PluginError>(PluginError::NotInitialized),
            self.initialized() ==> r is Ok && r->Ok_0@ == self.spec_config().base_url@
                + "/api/v1/quote?symbol="@ + upper_of(spec_split_symbol(symbol@).0) + "&exchange="@
                + spec_split_symbol(symbol@).1,
    {
        if !self.is_initialized {
            return Err(PluginError::NotInitialized);
        }
        let (clean, exchange) = self.convert_symbol(symbol);
        let head = join4(self.config.base_url.as_str(), "/api/v1/quote?symbol=", clean.as_str(), "&exchange=");
        Ok(head.concat(exchange.as_str()))
    }

    /// Maps a quote reply to a snapshot. Missing fields count as zero, and
    /// a missing last price is the bid/ask midpoint. A non-2xx reply gives
    /// an all-zero placeholder marked as a failed quote.
    pub fn quote_outcome(&self, symbol: &str, status: u16, reply: Option<OpenAlgoQuote>, timestamp: i64) -> (r: Result<MarketData, PluginError>)
        ensures
            !self.initialized() ==> r == Err::<MarketData, PluginError>(PluginError::NotInitialized),
            self.initialized() && !spec_status_ok(status) ==> r is Ok && r->Ok_0.bid == 0 && r->Ok_0.ask == 0
                && r->Ok_0.last == 0 && r->Ok_0.volume == 0 && r->Ok_0.symbol@ == symbol@,
            self.initialized() && spec_status_ok(status) && reply is None ==> r is Err && r->Err_0 is Decode,
            self.initialized() && spec_status_ok(status) && reply is Some ==> r is Ok && ({
                let q = reply->Some_0;
                let d = r->Ok_0;
                let bid = match q.bid { Some(b) => b, None => 0 };
                let ask = match q.ask { Some(a) => a, None => 0 };
                &&& d.symbol@ == symbol@
                &&& d.bid == bid
                &&& d.ask == ask
                &&& d.last == match q.ltp { Some(l) => l as int, None => (bid + ask) / 2 }
                &&& d.volume == match q.volume { Some(v) => v, None => 0 }
                &&& d.timestamp == timestamp
            }),
    {
        if !self.is_initialized {
            return Err(PluginError::NotInitialized);
        }
        if !status_ok(status) {
            let mut extra: Vec<(String, String)> = Vec::new();
            extra.push(pair("source", "openalgo"));
            extra.push(pair("error", "quote_failed"));
            return Ok(MarketData {
                symbol: String::from_str(symbol),
                bid: 0,
                ask: 0,
                last: 0,
                volume: 0,
                timestamp,
                extra,
            });
        }
        match reply {
            None => Err(PluginError::Decode(String::from_str("OpenAlgo API error: malformed quote"))),
            Some(q) => {
                let bid = match q.bid {
                    Some(b) => b,
                    None => 0,
                };
                let ask = match q.ask {
                    Some(a) => a,
                    None => 0,
                };
                let last = match q.ltp {
                    Some(l) => l,
                    None => bid / 2 + ask / 2 + (bid % 2 + ask % 2) / 2,
                };
                let (_, exchange) = self.convert_symbol(symbol);
                let mut extra: Vec<(String, String)> = Vec::new();
                extra.push(pair("exchange", exchange.as_str()));
                extra.push(pair("source", "openalgo"));
                extra.push(pair("sandbox", if self.config.sandbox_mode { "true" } else { "false" }));
                Ok(MarketData { symbol: String::from_str(symbol), bid, ask, last, volume: match q.volume {
                    Some(v) => v,
                    None => 0,
                }, timestamp, extra })
            },
        }
    }

    /// Health from a probe of the health endpoint: healthy only when
    /// initialized and the probe answered with a 2xx status.
    pub fn health_verdict(&self, probe_status: Option<u16>) -> (r: bool)
        ensures
            r == (self.initialized() && probe_status is Some && spec_status_ok(probe_status->Some_0)),
    {
        if !self.is_initialized {
            return false;
        }
        match probe_status {
            Some(s) => status_ok(s),
            None => false,
        }
    }
}

} // verus!
