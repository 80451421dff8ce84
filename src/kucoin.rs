//! Adapter for a spot/futures exchange that signs a prehash of timestamp,
//! method, endpoint and body with base64 HMAC-SHA256, and sends its
//! passphrase only in signed form.
//!
//! The adapter decides; the caller carries the HTTP traffic. An order goes
//! out as `order_url` + `order_params` (serialized to JSON) + `sign_request`
//! headers, and the reply comes back through `order_outcome`.

use vstd::prelude::*;
use vstd::string::StringExecFns;
use vstd::string::StrSliceExecFns;
use crate::model::{
    placed_result, rejected_result, spec_average_price, spec_filled_quantity, ExecutionResult,
    MarketData, Order, OrderSide, OrderType, PluginError,
};
use crate::signing::{hmac_base64, spec_base64_signature};
use crate::text::{contains, ends_with, prefix, spec_contains, spec_ends_with, str_eq};
use crate::wire::{
    decimal_of, decimal_text, http_error, join2, join4, pair, pairs_view, signed_decimal_of,
    signed_decimal_text, spec_http_error, spec_status_ok, status_ok,
};

verus! {

/// Path of the order endpoint, for spot and futures alike.
pub open spec fn spec_order_endpoint() -> Seq<char> {
    "/api/v1/orders"@
}

/// Path of the order endpoint, for spot and futures alike.
pub fn order_endpoint() -> (r: &'static str)
    ensures
        r@ == spec_order_endpoint(),
{
    "/api/v1/orders"
}

/// Credentials and trading options.
#[derive(Clone, Debug)]
pub struct KuCoinConfig {
    pub api_key: String,
    pub api_secret: String,
    pub api_passphrase: String,
    /// Use the sandbox.
    pub testnet: bool,
    /// "spot" or "futures".
    pub trading_type: String,
    /// Leverage sent with each futures order.
    pub leverage: i32,
}

/// The trading type used when none is configured.
pub fn default_trading_type() -> (r: String)
    ensures
        r@ == "futures"@,
{
    String::from_str("futures")
}

/// The leverage used when none is configured.
pub fn default_leverage() -> (r: i32)
    ensures
        r == 10,
{
    10
}

/// The reply envelope.
#[derive(Clone, Debug)]
pub struct KuCoinResponse<T> {
    pub code: Option<String>,
    pub data: Option<T>,
    pub msg: Option<String>,
}

/// Whether a reply code means success: "200000", or no code at all.
pub open spec fn spec_code_ok(code: Option<String>) -> bool {
    match code {
        Some(c) => c@ == "200000"@,
        None => true,
    }
}

impl<T> KuCoinResponse<T> {
    /// The reply message, "Unknown error" when there is none.
    pub open spec fn spec_error_msg(&self) -> Seq<char> {
        match self.msg {
            Some(m) => m@,
            None => "Unknown error"@,
        }
    }

    /// Whether the venue accepted the request.
    pub fn is_success(&self) -> (r: bool)
        ensures
            r == spec_code_ok(self.code),
    {
        match &self.code {
            Some(c) => str_eq(c.as_str(), "200000"),
            None => true,
        }
    }

    /// The reply message, "Unknown error" when there is none.
    pub fn error_msg(&self) -> (r: String)
        ensures
            r@ == self.spec_error_msg(),
    {
        match &self.msg {
            Some(m) => m.clone(),
            None => String::from_str("Unknown error"),
        }
    }
}

/// The `data` of an order reply; the identifier comes under either key.
#[derive(Clone, Debug)]
pub struct KuCoinOrderResult {
    pub order_id: Option<String>,
    pub order_id_alt: Option<String>,
}

impl KuCoinOrderResult {
    /// The identifier: `order_id`, else `orderId`.
    pub open spec fn spec_order_id(&self) -> Option<String> {
        match self.order_id {
            Some(id) => Some(id),
            None => self.order_id_alt,
        }
    }

    /// The identifier: `order_id`, else `orderId`.
    pub fn order_id(&self) -> (r: Option<String>)
        ensures
            r == self.spec_order_id(),
    {
        match &self.order_id {
            Some(id) => Some(id.clone()),
            None => match &self.order_id_alt {
                Some(id) => Some(id.clone()),
                None => None,
            },
        }
    }
}

/// The `data` of a ticker reply, amounts in fixed-point units.
#[derive(Clone, Debug)]
pub struct KuCoinTicker {
    pub price: Option<u64>,
    pub best_bid: Option<u64>,
    pub best_ask: Option<u64>,
    pub last_price: Option<u64>,
    pub volume: Option<u64>,
}

/// The fields of an order request, amounts in fixed-point units.
#[derive(Clone, Debug)]
pub struct KuCoinOrderParams {
    pub client_oid: String,
    pub side: String,
    pub symbol: String,
    pub order_type: String,
    pub size: u64,
    pub price: Option<u64>,
    /// Stop direction, "down" when a stop-loss is attached (futures only).
    pub stop: Option<String>,
    pub stop_price: Option<u64>,
    /// Leverage (futures only).
    pub leverage: Option<i32>,
}

/// Base URL of the sandbox or the main venue.
pub open spec fn spec_base_url(testnet: bool) -> Seq<char> {
    if testnet {
        "https://openapi-sandbox.kucoin.com"@
    } else {
        "https://api.kucoin.com"@
    }
}

/// The venue's word for a side.
pub open spec fn spec_side_text(side: OrderSide) -> Seq<char> {
    match side {
        OrderSide::Buy => "buy"@,
        OrderSide::Sell => "sell"@,
    }
}

/// The venue's word for an order type.
pub open spec fn spec_order_type_text(t: OrderType) -> Seq<char> {
    match t {
        OrderType::Market => "market"@,
        OrderType::Limit => "limit"@,
        OrderType::Stop => "stop"@,
        OrderType::StopLimit => "stopLimit"@,
        OrderType::TakeProfit => "takeProfit"@,
        OrderType::StopLoss => "stopLoss"@,
    }
}

/// The venue's symbol: a symbol with a '-' is kept, one ending in "USDT"
/// gets a '-' before the quote currency ("BTCUSDT" to "BTC-USDT"), any
/// other is kept.
pub open spec fn spec_venue_symbol(symbol: Seq<char>) -> Seq<char> {
    if spec_contains(symbol, "-"@) {
        symbol
    } else if spec_ends_with(symbol, "USDT"@) {
        symbol.subrange(0, symbol.len() - 4) + "-USDT"@
    } else {
        symbol
    }
}

/// The prehash: timestamp, method, endpoint and body, in that order.
pub open spec fn spec_prehash(timestamp: u64, method: Seq<char>, endpoint: Seq<char>, body: Seq<char>) -> Seq<char> {
    decimal_of(timestamp as nat) + method + endpoint + body
}

/// Authentication headers of a request.
pub open spec fn spec_headers(
    api_key: Seq<char>,
    api_secret: Seq<char>,
    api_passphrase: Seq<char>,
    timestamp: u64,
    method: Seq<char>,
    endpoint: Seq<char>,
    body: Seq<char>,
) -> Seq<(Seq<char>, Seq<char>)> {
    seq![
        ("KC-API-KEY"@, api_key),
        ("KC-API-SIGN"@, spec_base64_signature(api_secret, spec_prehash(timestamp, method, endpoint, body))),
        ("KC-API-TIMESTAMP"@, decimal_of(timestamp as nat)),
        ("KC-API-PASSPHRASE"@, spec_base64_signature(api_secret, api_passphrase)),
        ("KC-API-KEY-VERSION"@, "2"@),
        ("Content-Type"@, "application/json"@),
    ]
}

/// The message of a reply with a failing code.
pub open spec fn spec_api_error(code: Option<String>, msg: Seq<char>) -> Seq<char> {
    "KuCoin API error: "@ + match code {
        Some(c) => c@,
        None => "unknown"@,
    } + " - "@ + msg
}

/// The message of a reply that could not be decoded.
pub open spec fn spec_malformed() -> Seq<char> {
    "KuCoin API error: malformed response"@
}

/// What an order reply means.
///
/// A non-2xx status, an undecodable body and a failing code each give a
/// failed result with a message; an accepted order gives a successful one.
pub open spec fn spec_order_outcome(
    order: Order,
    status: u16,
    body: Seq<char>,
    reply: Option<KuCoinResponse<KuCoinOrderResult>>,
    quote: Option<u64>,
    timestamp: i64,
    r: ExecutionResult,
) -> bool {
    &&& r.timestamp == timestamp
    &&& if !spec_status_ok(status) {
        !r.success && r.error is Some && r.error->Some_0@ == spec_http_error(status, body)
            && r.order_id is None && r.filled_quantity == 0 && r.average_price == 0
    } else if reply is None {
        !r.success && r.error is Some && r.error->Some_0@ == spec_malformed()
            && r.order_id is None && r.filled_quantity == 0 && r.average_price == 0
    } else if !spec_code_ok(reply->Some_0.code) {
        !r.success && r.error is Some && r.error->Some_0@ == spec_api_error(
            reply->Some_0.code,
            reply->Some_0.spec_error_msg(),
        ) && r.order_id is None && r.filled_quantity == 0 && r.average_price == 0
    } else {
        r.success && r.error is None && r.order_id == (match reply->Some_0.data {
            Some(d) => d.spec_order_id(),
            None => None,
        }) && r.filled_quantity == spec_filled_quantity(order.order_type, order.quantity)
            && r.average_price == spec_average_price(order.order_type, order.price, quote)
    }
}

/// One position, amounts in fixed-point units (signed where the venue
/// signs them).
#[derive(Clone, Debug)]
pub struct KuCoinPosition {
    pub symbol: String,
    pub side: String,
    pub current_qty: Option<i64>,
    pub size: Option<i64>,
    pub avg_entry_price: Option<u64>,
    pub mark_price: Option<u64>,
    pub unrealized_pnl: Option<i64>,
    pub leverage: Option<u64>,
    pub current_cost: Option<i64>,
}

/// The `data` of a position reply; positions come under either key.
#[derive(Clone, Debug)]
pub struct KuCoinPositionResult {
    pub positions: Option<Vec<KuCoinPosition>>,
    pub items: Option<Vec<KuCoinPosition>>,
}

/// The fields of a leverage request.
#[derive(Clone, Debug)]
pub struct KuCoinLeverageParams {
    pub symbol: String,
    pub leverage: String,
}

/// The size of a position: `currentQty`, else `size`, else zero.
pub open spec fn spec_position_size(p: KuCoinPosition) -> i64 {
    match p.current_qty {
        Some(q) => q,
        None => match p.size {
            Some(s) => s,
            None => 0,
        },
    }
}

/// What the check of a reply means: `Ok` exactly when the status is 2xx,
/// the body decoded and the code means success.
pub open spec fn spec_ack<T>(status: u16, reply: Option<KuCoinResponse<T>>, r: Result<(), PluginError>) -> bool {
    if !spec_status_ok(status) {
        r is Err && r->Err_0 is Transport
    } else if reply is None {
        r is Err && r->Err_0 is Decode
    } else if !spec_code_ok(reply->Some_0.code) {
        r is Err && r->Err_0 is VenueRejected
    } else {
        r is Ok
    }
}

/// Adapter state: the configuration slot is empty until `init` succeeds.
pub struct KuCoinPlugin {
    name: String,
    config: Option<KuCoinConfig>,
    base_url: String,
}

impl KuCoinPlugin {
    /// Whether `init` has succeeded.
    pub closed spec fn initialized(&self) -> bool {
        self.config is Some
    }

    /// The configuration in force, if any.
    pub closed spec fn spec_config(&self) -> Option<KuCoinConfig> {
        self.config
    }

    /// The adapter's identifier.
    pub closed spec fn spec_name(&self) -> Seq<char> {
        self.name@
    }

    /// The base URL in use.
    pub closed spec fn spec_base(&self) -> Seq<char> {
        self.base_url@
    }

    /// Whether the configured trading type is futures.
    pub open spec fn spec_futures(&self) -> bool {
        self.spec_config()->Some_0.trading_type@ == "futures"@
    }

    /// A fresh, uninitialized adapter called `name`, pointed at the main venue.
    pub fn new(name: &str) -> (r: KuCoinPlugin)
        ensures
            r.spec_name() == name@,
            !r.initialized(),
            r.spec_base() == spec_base_url(false),
    {
        KuCoinPlugin { name: String::from_str(name), config: None, base_url: String::from_str("https://api.kucoin.com") }
    }

    /// The adapter's identifier.
    pub fn name(&self) -> (r: &str)
        ensures
            r@ == self.spec_name(),
    {
        self.name.as_str()
    }

    /// Whether `init` has succeeded.
    pub fn is_initialized(&self) -> (r: bool)
        ensures
            r == self.initialized(),
    {
        self.config.is_some()
    }

    /// Base URL of the sandbox or the main venue.
    pub fn get_base_url(&self, testnet: bool) -> (r: &'static str)
        ensures
            r@ == spec_base_url(testnet),
    {
        if testnet {
            "https://openapi-sandbox.kucoin.com"
        } else {
            "https://api.kucoin.com"
        }
    }

    /// Stores the configuration; fails with `InvalidConfig`, leaving the
    /// adapter as it was, when the key, the secret or the passphrase is empty.
    pub fn init(&mut self, config: KuCoinConfig) -> (r: Result<(), PluginError>)
        ensures
            r is Ok <==> config.api_key@.len() > 0 && config.api_secret@.len() > 0
                && config.api_passphrase@.len() > 0,
            r is Ok ==> final(self).spec_config() == Some(config)
                && final(self).spec_base() == spec_base_url(config.testnet),
            r is Err ==> r->Err_0 is InvalidConfig && final(self).spec_config() == old(self).spec_config()
                && final(self).spec_base() == old(self).spec_base(),
            final(self).spec_name() == old(self).spec_name(),
    {
        if config.api_key.as_str().is_empty() || config.api_secret.as_str().is_empty()
            || config.api_passphrase.as_str().is_empty() {
            return Err(PluginError::InvalidConfig(String::from_str("KuCoin API key, secret, and passphrase must be provided")));
        }
        self.base_url = String::from_str(self.get_base_url(config.testnet));
        self.config = Some(config);
        Ok(())
    }

    /// Base64 HMAC-SHA256 of `message` under `secret`.
    pub fn generate_signature(secret: &str, message: &str) -> (r: String)
        ensures
            r@ == spec_base64_signature(secret@, message@),
    {
        hmac_base64(secret, message)
    }

    /// The passphrase as sent: base64 HMAC-SHA256 of it under `secret`.
    pub fn encrypt_passphrase(secret: &str, passphrase: &str) -> (r: String)
        ensures
            r@ == spec_base64_signature(secret@, passphrase@),
    {
        hmac_base64(secret, passphrase)
    }

    /// The prehash for a request sent at `timestamp`.
    pub fn prehash(timestamp: u64, method: &str, endpoint: &str, body: &str) -> (r: String)
        ensures
            r@ == spec_prehash(timestamp, method@, endpoint@, body@),
    {
        join4(decimal_text(timestamp).as_str(), method, endpoint, body)
    }

    /// Authentication headers of a request sent at `timestamp`.
    pub fn create_headers(
        method: &str,
        endpoint: &str,
        body: &str,
        api_key: &str,
        api_secret: &str,
        api_passphrase: &str,
        timestamp: u64,
    ) -> (r: Vec<(String, String)>)
        ensures
            pairs_view(r@) == spec_headers(api_key@, api_secret@, api_passphrase@, timestamp, method@, endpoint@, body@),
    {
        let prehash = KuCoinPlugin::prehash(timestamp, method, endpoint, body);
        let signature = KuCoinPlugin::generate_signature(api_secret, prehash.as_str());
        let passphrase = KuCoinPlugin::encrypt_passphrase(api_secret, api_passphrase);
        let mut headers: Vec<(String, String)> = Vec::new();
        headers.push(pair("KC-API-KEY", api_key));
        headers.push(pair("KC-API-SIGN", signature.as_str()));
        headers.push(pair("KC-API-TIMESTAMP", decimal_text(timestamp).as_str()));
        headers.push(pair("KC-API-PASSPHRASE", passphrase.as_str()));
        headers.push(pair("KC-API-KEY-VERSION", "2"));
        headers.push(pair("Content-Type", "application/json"));
        assert(pairs_view(headers@) =~= spec_headers(
            api_key@, api_secret@, api_passphrase@, timestamp, method@, endpoint@, body@,
        ));
        headers
    }

    /// The venue's symbol for `symbol`.
    pub fn venue_symbol(symbol: &str) -> (r: String)
        ensures
            r@ == spec_venue_symbol(symbol@),
    {
        if contains(symbol, "-") {
            String::from_str(symbol)
        } else if ends_with(symbol, "USDT") {
            proof {
                reveal_strlit("USDT");
            }
            let n = symbol.unicode_len();
            join2(prefix(symbol, n - 4).as_str(), "-USDT")
        } else {
            String::from_str(symbol)
        }
    }

    /// The venue's word for a side.
    pub fn side_text(side: OrderSide) -> (r: &'static str)
        ensures
            r@ == spec_side_text(side),
    {
        match side {
            OrderSide::Buy => "buy",
            OrderSide::Sell => "sell",
        }
    }

    /// The venue's word for an order type.
    pub fn order_type_text(t: OrderType) -> (r: &'static str)
        ensures
            r@ == spec_order_type_text(t),
    {
        match t {
            OrderType::Market => "market",
            OrderType::Limit => "limit",
            OrderType::Stop => "stop",
            OrderType::StopLimit => "stopLimit",
            OrderType::TakeProfit => "takeProfit",
            OrderType::StopLoss => "stopLoss",
        }
    }

    /// Whether the configured trading type is futures.
    fn is_futures(c: &KuCoinConfig) -> (r: bool)
        ensures
            r == (c.trading_type@ == "futures"@),
    {
        str_eq(c.trading_type.as_str(), "futures")
    }

    /// URL of the order endpoint; fails with `NotInitialized` before `init`.
    pub fn order_url(&self) -> (r: Result<String, PluginError>)
        ensures
            !self.initialized() ==> r == Err::<String, PluginError>(PluginError::NotInitialized),
            self.initialized() ==> r is Ok && r->Ok_0@ == spec_base_url(self.spec_config()->Some_0.testnet)
                + spec_order_endpoint(),
    {
        match &self.config {
            None => Err(PluginError::NotInitialized),
            Some(c) => Ok(join2(self.get_base_url(c.testnet), order_endpoint())),
        }
    }

    /// The fields of the order request for `order`, with a client order id
    /// made from `timestamp`; fails with `NotInitialized` before `init`.
    /// A stop-loss and the leverage are sent for futures only.
    pub fn order_params(&self, order: &Order, timestamp: u64) -> (r: Result<KuCoinOrderParams, PluginError>)
        ensures
            !self.initialized() ==> r == Err::<KuCoinOrderParams, PluginError>(PluginError::NotInitialized),
            self.initialized() ==> r is Ok && ({
                let p = r->Ok_0;
                let c = self.spec_config()->Some_0;
                let futures = c.trading_type@ == "futures"@;
                &&& p.client_oid@ == "fks-"@ + decimal_of(timestamp as nat)
                &&& p.side@ == spec_side_text(order.side)
                &&& p.symbol@ == spec_venue_symbol(order.symbol@)
                &&& p.order_type@ == spec_order_type_text(order.order_type)
                &&& p.size == order.quantity
                &&& p.price == order.price
                &&& (futures && order.stop_loss is Some) ==> (p.stop is Some && p.stop->Some_0@ == "down"@
                    && p.stop_price == order.stop_loss)
                &&& !(futures && order.stop_loss is Some) ==> (p.stop is None && p.stop_price is None)
                &&& p.leverage == if futures { Some(c.leverage) } else { None }
            }),
    {
        match &self.config {
            None => Err(PluginError::NotInitialized),
            Some(c) => {
                let futures = KuCoinPlugin::is_futures(c);
                let (stop, stop_price) = match order.stop_loss {
                    Some(sl) => if futures {
                        (Some(String::from_str("down")), Some(sl))
                    } else {
                        (None, None)
                    },
                    None => (None, None),
                };
                Ok(KuCoinOrderParams {
                    client_oid: join2("fks-", decimal_text(timestamp).as_str()),
                    side: String::from_str(KuCoinPlugin::side_text(order.side)),
                    symbol: KuCoinPlugin::venue_symbol(order.symbol.as_str()),
                    order_type: String::from_str(KuCoinPlugin::order_type_text(order.order_type)),
                    size: order.quantity,
                    price: order.price,
                    stop,
                    stop_price,
                    leverage: if futures { Some(c.leverage) } else { None },
                })
            },
        }
    }

    /// Headers for a request to `endpoint` with `body`, sent at `timestamp`;
    /// fails with `NotInitialized` before `init`.
    pub fn sign_request(&self, method: &str, endpoint: &str, body: &str, timestamp: u64) -> (r: Result<Vec<(String, String)>, PluginError>)
        ensures
            !self.initialized() ==> r == Err::<Vec<(String, String)>, PluginError>(PluginError::NotInitialized),
            self.initialized() ==> r is Ok && ({
                let c = self.spec_config()->Some_0;
                pairs_view(r->Ok_0@) == spec_headers(c.api_key@, c.api_secret@, c.api_passphrase@, timestamp, method@, endpoint@, body@)
            }),
    {
        match &self.config {
            None => Err(PluginError::NotInitialized),
            Some(c) => Ok(KuCoinPlugin::create_headers(
                method,
                endpoint,
                body,
                c.api_key.as_str(),
                c.api_secret.as_str(),
                c.api_passphrase.as_str(),
                timestamp,
            )),
        }
    }

    /// Maps an order reply to a result. Venue-side failures become a failed
    /// result, never an error. `quote` is the last price fetched after a
    /// market order was accepted, if one was had.
    pub fn order_outcome(
        order: &Order,
        status: u16,
        body: &str,
        reply: Option<KuCoinResponse<KuCoinOrderResult>>,
        quote: Option<u64>,
        timestamp: i64,
    ) -> (r: ExecutionResult)
        ensures
            spec_order_outcome(*order, status, body@, reply, quote, timestamp, r),
            r.error is Some ==> r.error->Some_0@.len() > 0,
    {
        proof {
            reveal_strlit("HTTP ");
            reveal_strlit("KuCoin API error: malformed response");
            reveal_strlit("KuCoin API error: ");
        }
        if !status_ok(status) {
            return rejected_result(http_error(status, body), timestamp);
        }
        match reply {
            None => rejected_result(String::from_str("KuCoin API error: malformed response"), timestamp),
            Some(resp) => {
                if !resp.is_success() {
                    let code = match &resp.code {
                        Some(c) => c.clone(),
                        None => String::from_str("unknown"),
                    };
                    let msg = join4("KuCoin API error: ", code.as_str(), " - ", resp.error_msg().as_str());
                    return rejected_result(msg, timestamp);
                }
                let order_id = match &resp.data {
                    Some(d) => d.order_id(),
                    None => None,
                };
                placed_result(order, order_id, quote, timestamp)
            },
        }
    }

    /// URL of the ticker request for `symbol`: the futures ticker or the
    /// spot best-quote book; fails with `NotInitialized` before `init`.
    pub fn ticker_url(&self, symbol: &str) -> (r: Result<String, PluginError>)
        ensures
            !self.initialized() ==> r == Err::<String, PluginError>(PluginError::NotInitialized),
            self.initialized() ==> r is Ok && r->Ok_0@ == spec_base_url(self.spec_config()->Some_0.testnet)
                + (if self.spec_futures() {
                    "/api/v1/ticker?symbol="@
                } else {
                    "/api/v1/market/orderbook/level1?symbol="@
                }) + spec_venue_symbol(symbol@),
    {
        match &self.config {
            None => Err(PluginError::NotInitialized),
            Some(c) => {
                let path = if KuCoinPlugin::is_futures(c) {
                    "/api/v1/ticker?symbol="
                } else {
                    "/api/v1/market/orderbook/level1?symbol="
                };
                let venue = KuCoinPlugin::venue_symbol(symbol);
                let url = join2(self.get_base_url(c.testnet), path).concat(venue.as_str());
                Ok(url)
            },
        }
    }

    /// Maps a ticker reply to a snapshot. The last price is `price`, else
    /// `last`; bid and ask fall back to it; volume falls back to zero.
    pub fn ticker_outcome(
        symbol: &str,
        status: u16,
        body: &str,
        reply: Option<KuCoinResponse<KuCoinTicker>>,
        timestamp: i64,
    ) -> (r: Result<MarketData, PluginError>)
        ensures
            !spec_status_ok(status) ==> r is Err && r->Err_0 is Transport,
            spec_status_ok(status) && reply is None ==> r is Err && r->Err_0 is Decode,
            spec_status_ok(status) && reply is Some && !spec_code_ok(reply->Some_0.code)
                ==> r is Err && r->Err_0 is VenueRejected,
            spec_status_ok(status) && reply is Some && spec_code_ok(reply->Some_0.code) ==> ({
                match reply->Some_0.data {
                    None => r is Err && r->Err_0 is Decode,
                    Some(t) => {
                        let last = match t.price {
                            Some(p) => Some(p),
                            None => t.last_price,
                        };
                        match last {
                            None => r is Err && r->Err_0 is Decode,
                            Some(l) => r is Ok && ({
                                let d = r->Ok_0;
                                &&& d.symbol@ == symbol@
                                &&& d.last == l
                                &&& d.bid == match t.best_bid { Some(b) => b, None => l }
                                &&& d.ask == match t.best_ask { Some(a) => a, None => l }
                                &&& d.volume == match t.volume { Some(v) => v, None => 0 }
                                &&& d.timestamp == timestamp
                            }),
                        }
                    },
                }
            }),
    {
        if !status_ok(status) {
            return Err(PluginError::Transport(http_error(status, body)));
        }
        match reply {
            None => Err(PluginError::Decode(String::from_str("KuCoin API error: malformed response"))),
            Some(resp) => {
                if !resp.is_success() {
                    let code = match &resp.code {
                        Some(c) => c.clone(),
                        None => String::from_str("unknown"),
                    };
                    let msg = join4("KuCoin API error: ", code.as_str(), " - ", resp.error_msg().as_str());
                    return Err(PluginError::VenueRejected(msg));
                }
                match resp.data {
                    None => Err(PluginError::Decode(join2("No market data found for symbol: ", symbol))),
                    Some(t) => {
                        let last = match t.price {
                            Some(p) => Some(p),
                            None => t.last_price,
                        };
                        match last {
                            None => Err(PluginError::Decode(String::from_str("No price data available"))),
                            Some(l) => Ok(MarketData {
                                symbol: String::from_str(symbol),
                                bid: match t.best_bid {
                                    Some(b) => b,
                                    None => l,
                                },
                                ask: match t.best_ask {
                                    Some(a) => a,
                                    None => l,
                                },
                                last: l,
                                volume: match t.volume {
                                    Some(v) => v,
                                    None => 0,
                                },
                                timestamp,
                                extra: Vec::new(),
                            }),
                        }
                    },
                }
            },
        }
    }

    /// Checks a reply status, body and code; the shared first half of
    /// every reply mapping.
    fn check_reply<T>(status: u16, body: &str, reply: &Option<KuCoinResponse<T>>) -> (r: Result<(), PluginError>)
        ensures
            spec_ack(status, *reply, r),
    {
        if !status_ok(status) {
            return Err(PluginError::Transport(http_error(status, body)));
        }
        match reply {
            None => Err(PluginError::Decode(String::from_str("KuCoin API error: malformed response"))),
            Some(resp) => if resp.is_success() {
                Ok(())
            } else {
                let code = match &resp.code {
                    Some(c) => c.clone(),
                    None => String::from_str("unknown"),
                };
                let msg = join4("KuCoin API error: ", code.as_str(), " - ", resp.error_msg().as_str());
                Err(PluginError::VenueRejected(msg))
            },
        }
    }

    /// The configuration, when it is for futures; fails with
    /// `NotInitialized` before `init` and with `InvalidConfig` for spot.
    fn futures_config(&self) -> (r: Result<&KuCoinConfig, PluginError>)
        ensures
            !self.initialized() ==> r == Err::<&KuCoinConfig, PluginError>(PluginError::NotInitialized),
            self.initialized() && !self.spec_futures() ==> r is Err && r->Err_0 is InvalidConfig,
            self.initialized() && self.spec_futures() ==> r is Ok && *r->Ok_0 == self.spec_config()->Some_0,
    {
        match &self.config {
            None => Err(PluginError::NotInitialized),
            Some(c) => if KuCoinPlugin::is_futures(c) {
                Ok(c)
            } else {
                Err(PluginError::InvalidConfig(String::from_str("Available for futures trading only")))
            },
        }
    }

    /// Endpoint and fields of a request setting the leverage of `symbol`;
    /// futures only.
    pub fn leverage_request(&self, symbol: &str, leverage: i32) -> (r: Result<(String, KuCoinLeverageParams), PluginError>)
        ensures
            !self.initialized() ==> r == Err::<(String, KuCoinLeverageParams), PluginError>(PluginError::NotInitialized),
            self.initialized() && !self.spec_futures() ==> r is Err && r->Err_0 is InvalidConfig,
            self.initialized() && self.spec_futures() ==> r is Ok && r->Ok_0.0@ == "/api/v1/leverage"@
                && r->Ok_0.1.symbol@ == symbol@ && r->Ok_0.1.leverage@ == signed_decimal_of(leverage as int),
    {
        match self.futures_config() {
            Err(e) => Err(e),
            Ok(_) => Ok((
                String::from_str("/api/v1/leverage"),
                KuCoinLeverageParams { symbol: String::from_str(symbol), leverage: signed_decimal_text(leverage as i64) },
            )),
        }
    }

    /// Maps the reply to a leverage request.
    pub fn leverage_outcome(status: u16, body: &str, reply: Option<KuCoinResponse<()>>) -> (r: Result<(), PluginError>)
        ensures
            spec_ack(status, reply, r),
    {
        KuCoinPlugin::check_reply(status, body, &reply)
    }

    /// Endpoint (path and query) of a position request for `symbol`;
    /// futures only.
    pub fn position_endpoint(&self, symbol: &str) -> (r: Result<String, PluginError>)
        ensures
            !self.initialized() ==> r == Err::<String, PluginError>(PluginError::NotInitialized),
            self.initialized() && !self.spec_futures() ==> r is Err && r->Err_0 is InvalidConfig,
            self.initialized() && self.spec_futures() ==> r is Ok && r->Ok_0@ == "/api/v1/positions?symbol="@ + symbol@,
    {
        match self.futures_config() {
            Err(e) => Err(e),
            Ok(_) => Ok(join2("/api/v1/positions?symbol=", symbol)),
        }
    }

    /// URL of a request to `endpoint`; fails with `NotInitialized` before `init`.
    pub fn url_for(&self, endpoint: &str) -> (r: Result<String, PluginError>)
        ensures
            !self.initialized() ==> r == Err::<String, PluginError>(PluginError::NotInitialized),
            self.initialized() ==> r is Ok && r->Ok_0@ == spec_base_url(self.spec_config()->Some_0.testnet) + endpoint@,
    {
        match &self.config {
            None => Err(PluginError::NotInitialized),
            Some(c) => Ok(join2(self.get_base_url(c.testnet), endpoint)),
        }
    }

    /// Maps a position reply to the first listed position (under
    /// `positions`, else `items`) when its size is not zero.
    pub fn position_outcome(status: u16, body: &str, reply: Option<KuCoinResponse<KuCoinPositionResult>>) -> (r: Result<Option<KuCoinPosition>, PluginError>)
        ensures
            spec_ack(status, reply, match r { Ok(_) => Ok(()), Err(e) => Err(e) }),
            r is Ok ==> ({
                let listed = match reply->Some_0.data {
                    Some(d) => match d.positions {
                        Some(l) => l@,
                        None => match d.items {
                            Some(l) => l@,
                            None => Seq::empty(),
                        },
                    },
                    None => Seq::empty(),
                };
                r->Ok_0 == if listed.len() > 0 && spec_position_size(listed[0]) != 0 {
                    Some(listed[0])
                } else {
                    None::<KuCoinPosition>
                }
            }),
    {
        match KuCoinPlugin::check_reply(status, body, &reply) {
            Err(e) => Err(e),
            Ok(()) => {
                let resp = reply.unwrap();
                let listed = match resp.data {
                    Some(d) => match d.positions {
                        Some(l) => l,
                        None => match d.items {
                            Some(l) => l,
                            None => Vec::new(),
                        },
                    },
                    None => Vec::new(),
                };
                let mut listed = listed;
                if listed.len() > 0 {
                    let first = listed.remove(0);
                    let size = match first.current_qty {
                        Some(q) => q,
                        None => match first.size {
                            Some(s) => s,
                            None => 0,
                        },
                    };
                    if size != 0 {
                        return Ok(Some(first));
                    }
                }
                Ok(None)
            },
        }
    }

    /// Health from a probe quote: healthy only when initialized and the probe succeeded.
    pub fn health_verdict(&self, probe_ok: bool) -> (r: bool)
        ensures
            r == (self.initialized() && probe_ok),
    {
        self.config.is_some() && probe_ok
    }
}

} // verus!
