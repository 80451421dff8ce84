//! Adapter that forwards orders as signed webhooks to a separately run
//! execution proxy. One shared secret signs the JSON payload with a hex
//! HMAC-SHA256 carried in a header. The adapter decides; the caller
//! carries the HTTP traffic.

use vstd::prelude::*;
use vstd::string::StringExecFns;
use crate::model::{rejected_result, ExecutionResult, MarketData, Order, OrderSide, OrderType, PluginError};
use crate::signing::{hmac_hex, spec_hex_signature};
use crate::text::str_eq;
use crate::wire::{decimal_text, http_error, join2, join4, pair, pairs_view, spec_http_error, spec_status_ok, status_ok};

verus! {

/// Proxy settings.
#[derive(Clone, Debug)]
pub struct CCXTConfig {
    /// Base URL of the proxy, such as "http://localhost:8000".
    pub base_url: String,
    /// Secret that signs every payload.
    pub webhook_secret: String,
    /// Exchange behind the proxy.
    pub exchange: String,
    pub testnet: bool,
}

/// The exchange used when none is configured.
pub fn default_exchange() -> (r: String)
    ensures
        r@ == "binance"@,
{
    String::from_str("binance")
}

/// The signal payload sent to the proxy; amounts in fixed-point units,
/// timestamp in epoch seconds.
#[derive(Clone, Debug)]
pub struct WebhookPayload {
    pub timestamp: i64,
    pub symbol: String,
    /// "buy" or "sell".
    pub action: String,
    pub order_type: String,
    pub quantity: u64,
    pub price: Option<u64>,
    pub stop_loss: Option<u64>,
    pub take_profit: Option<u64>,
    pub confidence: u32,
}

/// The proxy's reply to an order.
#[derive(Clone, Debug)]
pub struct WebhookResponse {
    pub status: String,
    pub message: Option<String>,
    pub order_id: Option<String>,
    pub filled_quantity: Option<u64>,
    pub average_price: Option<u64>,
}

/// The proxy's reply to a ticker request.
#[derive(Clone, Debug)]
pub struct TickerResponse {
    pub symbol: String,
    pub bid: Option<u64>,
    pub ask: Option<u64>,
    pub last: u64,
    pub volume: Option<u64>,
    pub timestamp: Option<i64>,
}

/// The proxy's word for an order type.
pub open spec fn spec_order_type_text(t: OrderType) -> Seq<char> {
    match t {
        OrderType::Market => "market"@,
        OrderType::Limit => "limit"@,
        OrderType::Stop => "stop"@,
        OrderType::StopLimit => "stop_limit"@,
        OrderType::TakeProfit => "take_profit"@,
        OrderType::StopLoss => "stop_loss"@,
    }
}

/// The proxy's word for a side.
pub open spec fn spec_action_text(side: OrderSide) -> Seq<char> {
    match side {
        OrderSide::Buy => "buy"@,
        OrderSide::Sell => "sell"@,
    }
}

/// The message of a failed order: the proxy's message when it sent a
/// non-empty one, else the HTTP status and body.
pub open spec fn spec_failure_message(status: u16, body: Seq<char>, message: Option<String>) -> Seq<char> {
    match message {
        Some(m) => if m@.len() > 0 { m@ } else { spec_http_error(status, body) },
        None => spec_http_error(status, body),
    }
}

/// Bid assumed from the last price: one ten-thousandth below it.
pub open spec fn spec_bid_from_last(last: u64) -> u64 {
    (last - last / 10000) as u64
}

/// Ask assumed from the last price: one ten-thousandth above it, bounded
/// by the integer range.
pub open spec fn spec_ask_from_last(last: u64) -> u64 {
    if last + last / 10000 <= u64::MAX {
        (last + last / 10000) as u64
    } else {
        u64::MAX
    }
}

/// Adapter state: the configuration slot is empty until `init` succeeds.
pub struct CCXTPlugin {
    name: String,
    config: Option<CCXTConfig>,
}

impl CCXTPlugin {
    /// Whether `init` has succeeded.
    pub closed spec fn initialized(&self) -> bool {
        self.config is Some
    }

    /// The configuration in force, if any.
    pub closed spec fn spec_config(&self) -> Option<CCXTConfig> {
        self.config
    }

    /// The adapter's identifier.
    pub closed spec fn spec_name(&self) -> Seq<char> {
        self.name@
    }

    /// A fresh, uninitialized adapter called `name`.
    pub fn new(name: &str) -> (r: CCXTPlugin)
        ensures
            r.spec_name() == name@,
            !r.initialized(),
    {
        CCXTPlugin { name: String::from_str(name), config: None }
    }

    /// The adapter's identifier.
    pub fn name(&self) -> (r: &str)
        ensures
            r@ == self.spec_name(),
    {
        self.name.as_str()
    }

    /// Whether `init` has succeeded.
    pub fn is_initialized(&self) -> (r: bool)
        ensures
            r == self.initialized(),
    {
        self.config.is_some()
    }

    /// Stores the configuration; fails with `InvalidConfig`, leaving the
    /// adapter as it was, when the URL or the secret is empty.
    pub fn init(&mut self, config: CCXTConfig) -> (r: Result<(), PluginError>)
        ensures
            r is Ok <==> config.base_url@.len() > 0 && config.webhook_secret@.len() > 0,
            r is Ok ==> final(self).spec_config() == Some(config),
            r is Err ==> r->Err_0 is InvalidConfig && final(self).spec_config() == old(self).spec_config(),
            final(self).spec_name() == old(self).spec_name(),
    {
        if config.base_url.as_str().is_empty() || config.webhook_secret.as_str().is_empty() {
            return Err(PluginError::InvalidConfig(String::from_str("CCXT base URL and webhook secret must be provided")));
        }
        self.config = Some(config);
        Ok(())
    }

    /// Hex HMAC-SHA256 of `payload` under `secret`.
    pub fn generate_signature(payload: &str, secret: &str) -> (r: String)
        ensures
            r@ == spec_hex_signature(secret@, payload@),
    {
        hmac_hex(secret, payload)
    }

    /// URL of the proxy's health endpoint; fails with `NotInitialized` before `init`.
    pub fn health_url(&self) -> (r: Result<String, PluginError>)
        ensures
            !self.initialized() ==> r == Err::<String, PluginError>(PluginError::NotInitialized),
            self.initialized() ==> r is Ok && r->Ok_0@ == self.spec_config()->Some_0.base_url@ + "/health"@,
    {
        match &self.config {
            None => Err(PluginError::NotInitialized),
            Some(c) => Ok(join2(c.base_url.as_str(), "/health")),
        }
    }

    /// URL of the webhook endpoint; fails with `NotInitialized` before `init`.
    pub fn webhook_url(&self) -> (r: Result<String, PluginError>)
        ensures
            !self.initialized() ==> r == Err::<String, PluginError>(PluginError::NotInitialized),
            self.initialized() ==> r is Ok && r->Ok_0@ == self.spec_config()->Some_0.base_url@
                + "/webhook/tradingview"@,
    {
        match &self.config {
            None => Err(PluginError::NotInitialized),
            Some(c) => Ok(join2(c.base_url.as_str(), "/webhook/tradingview")),
        }
    }

    /// The payload for `order`, stamped with `timestamp_secs`; fails with
    /// `NotInitialized` before `init`.
    pub fn webhook_payload(&self, order: &Order, timestamp_secs: i64) -> (r: Result<WebhookPayload, PluginError>)
        ensures
            !self.initialized() ==> r == Err::<WebhookPayload, PluginError>(PluginError::NotInitialized),
            self.initialized() ==> r is Ok && ({
                let p = r->Ok_0;
                &&& p.timestamp == timestamp_secs
                &&& p.symbol@ == order.symbol@
                &&& p.action@ == spec_action_text(order.side)
                &&& p.order_type@ == spec_order_type_text(order.order_type)
                &&& p.quantity == order.quantity
                &&& p.price == order.price
                &&& p.stop_loss == order.stop_loss
                &&& p.take_profit == order.take_profit
                &&& p.confidence == order.confidence
            }),
    {
        if self.config.is_none() {
            return Err(PluginError::NotInitialized);
        }
        let action = match order.side {
            OrderSide::Buy => "buy",
            OrderSide::Sell => "sell",
        };
        let order_type = match order.order_type {
            OrderType::Market => "market",
            OrderType::Limit => "limit",
            OrderType::Stop => "stop",
            OrderType::StopLimit => "stop_limit",
            OrderType::TakeProfit => "take_profit",
            OrderType::StopLoss => "stop_loss",
        };
        Ok(WebhookPayload {
            timestamp: timestamp_secs,
            symbol: order.symbol.clone(),
            action: String::from_str(action),
            order_type: String::from_str(order_type),
            quantity: order.quantity,
            price: order.price,
            stop_loss: order.stop_loss,
            take_profit: order.take_profit,
            confidence: order.confidence,
        })
    }

    /// Headers for a serialized payload: its signature under the shared
    /// secret, and the JSON content type. Fails with `NotInitialized` before `init`.
    pub fn sign_payload(&self, payload_json: &str) -> (r: Result<Vec<(String, String)>, PluginError>)
        ensures
            !self.initialized() ==> r == Err::<Vec<(String, String)>, PluginError>(PluginError::NotInitialized),
            self.initialized() ==> r is Ok && pairs_view(r->Ok_0@) == seq![
                ("X-Webhook-Signature"@, spec_hex_signature(self.spec_config()->Some_0.webhook_secret@, payload_json@)),
                ("Content-Type"@, "application/json"@),
            ],
    {
        match &self.config {
            None => Err(PluginError::NotInitialized),
            Some(c) => {
                let signature = CCXTPlugin::generate_signature(payload_json, c.webhook_secret.as_str());
                let mut headers: Vec<(String, String)> = Vec::new();
                headers.push(pair("X-Webhook-Signature", signature.as_str()));
                headers.push(pair("Content-Type", "application/json"));
                assert(pairs_view(headers@) =~= seq![
                    ("X-Webhook-Signature"@, signature@),
                    ("Content-Type"@, "application/json"@),
                ]);
                Ok(headers)
            },
        }
    }

    /// Maps the proxy's reply to a result. The order succeeded when the
    /// status is 2xx and the reply's status is not "error"; fill figures
    /// are the proxy's, zero where it gives none. An undecodable reply is
    /// a failed result, never an error.
    pub fn order_outcome(status: u16, body: &str, reply: Option<WebhookResponse>, timestamp: i64) -> (r: ExecutionResult)
        ensures
            r.timestamp == timestamp,
            r.success <==> spec_status_ok(status) && reply is Some && reply->Some_0.status@ != "error"@,
            reply is None ==> !r.success && r.error is Some && r.order_id is None && r.filled_quantity == 0
                && r.average_price == 0,
            reply is Some ==> ({
                let w = reply->Some_0;
                &&& r.order_id == w.order_id
                &&& r.filled_quantity == match w.filled_quantity { Some(q) => q, None => 0 }
                &&& r.average_price == match w.average_price { Some(p) => p, None => 0 }
                &&& r.success ==> r.error is None
                &&& !r.success ==> r.error is Some && r.error->Some_0@ == spec_failure_message(status, body@, w.message)
            }),
            r.error is Some ==> r.error->Some_0@.len() > 0,
    {
        proof {
            reveal_strlit("HTTP ");
            reveal_strlit("CCXT webhook error: malformed response");
        }
        match reply {
            None => rejected_result(String::from_str("CCXT webhook error: malformed response"), timestamp),
            Some(w) => {
                let success = status_ok(status) && !str_eq(w.status.as_str(), "error");
                let error = if success {
                    None
                } else {
                    match w.message {
                        Some(m) => if m.as_str().is_empty() {
                            Some(http_error(status, body))
                        } else {
                            Some(m)
                        },
                        None => Some(http_error(status, body)),
                    }
                };
                ExecutionResult {
                    success,
                    order_id: w.order_id,
                    filled_quantity: match w.filled_quantity {
                        Some(q) => q,
                        None => 0,
                    },
                    average_price: match w.average_price {
                        Some(p) => p,
                        None => 0,
                    },
                    error,
                    timestamp,
                }
            },
        }
    }

    /// URL of the ticker request for `symbol`; fails with `NotInitialized` before `init`.
    pub fn ticker_url(&self, symbol: &str) -> (r: Result<String, PluginError>)
        ensures
            !self.initialized() ==> r == Err::<String, PluginError>(PluginError::NotInitialized),
            self.initialized() ==> r is Ok && r->Ok_0@ == self.spec_config()->Some_0.base_url@ + "/ticker/"@ + symbol@,
    {
        match &self.config {
            None => Err(PluginError::NotInitialized),
            Some(c) => Ok(join2(c.base_url.as_str(), "/ticker/").concat(symbol)),
        }
    }

    /// Maps a ticker reply to a snapshot. A missing bid or ask is assumed
    /// one ten-thousandth off the last price; a missing volume is zero, a
    /// missing timestamp is `now`. Fails with `NotInitialized` before `init`.
    pub fn ticker_outcome(&self, symbol: &str, status: u16, reply: Option<TickerResponse>, now: i64) -> (r: Result<MarketData, PluginError>)
        ensures
            !self.initialized() ==> r == Err::<MarketData, PluginError>(PluginError::NotInitialized),
            self.initialized() && !spec_status_ok(status) ==> r is Err && r->Err_0 is Transport,
            self.initialized() && spec_status_ok(status) && reply is None ==> r is Err && r->Err_0 is Decode,
            self.initialized() && spec_status_ok(status) && reply is Some ==> r is Ok && ({
                let t = reply->Some_0;
                let d = r->Ok_0;
                &&& d.symbol@ == t.symbol@
                &&& d.last == t.last
                &&& d.bid == match t.bid { Some(b) => b, None => spec_bid_from_last(t.last) }
                &&& d.ask == match t.ask { Some(a) => a, None => spec_ask_from_last(t.last) }
                &&& d.volume == match t.volume { Some(v) => v, None => 0 }
                &&& d.timestamp == match t.timestamp { Some(ts) => ts, None => now }
            }),
    {
        match &self.config {
            None => Err(PluginError::NotInitialized),
            Some(c) => {
                if !status_ok(status) {
                    let msg = join4("Failed to fetch ticker for ", symbol, ": ", decimal_text(status as u64).as_str());
                    return Err(PluginError::Transport(msg));
                }
                match reply {
                    None => Err(PluginError::Decode(String::from_str("CCXT ticker: malformed response"))),
                    Some(t) => {
                        let step = t.last / 10000;
                        let bid = match t.bid {
                            Some(b) => b,
                            None => t.last - step,
                        };
                        let ask = match t.ask {
                            Some(a) => a,
                            None => if t.last <= u64::MAX - step {
                                t.last + step
                            } else {
                                u64::MAX
                            },
                        };
                        let mut extra: Vec<(String, String)> = Vec::new();
                        extra.push(pair("exchange", c.exchange.as_str()));
                        extra.push(pair("testnet", if c.testnet { "true" } else { "false" }));
                        Ok(MarketData {
                            symbol: t.symbol,
                            bid,
                            ask,
                            last: t.last,
                            volume: match t.volume {
                                Some(v) => v,
                                None => 0,
                            },
                            timestamp: match t.timestamp {
                                Some(ts) => ts,
                                None => now,
                            },
                            extra,
                        })
                    },
                }
            },
        }
    }

    /// Health from a probe of the health endpoint: healthy only when
    /// initialized and the probe answered with a 2xx status.
    pub fn health_verdict(&self, probe_status: Option<u16>) -> (r: bool)
        ensures
            r == (self.initialized() && probe_status is Some && spec_status_ok(probe_status->Some_0)),
    {
        if self.config.is_none() {
            return false;
        }
        match probe_status {
            Some(s) => status_ok(s),
            None => false,
        }
    }
}

} // verus!
