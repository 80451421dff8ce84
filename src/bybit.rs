//! Adapter for a derivatives exchange that signs requests with a hex
//! HMAC-SHA256 over timestamp, key, receive window and payload.
//!
//! The adapter decides; the caller carries the HTTP traffic. A request goes
//! out as `order_endpoint` + `order_params` (serialized to JSON) +
//! `sign_order` headers, and the reply comes back through `order_outcome`.

use vstd::prelude::*;
use vstd::string::StringExecFns;
use crate::model::{
    placed_result, rejected_result, spec_average_price, spec_filled_quantity, ExecutionResult,
    MarketData, Order, OrderSide, OrderType, PluginError,
};
use crate::signing::{hmac_hex, spec_hex_signature};
use crate::wire::{
    decimal_of, decimal_text, http_error, join2, join4, pair, pairs_view, signed_decimal_of,
    signed_decimal_text, spec_http_error, spec_status_ok, status_ok,
};

verus! {

/// Receive window, in milliseconds, sent with every signed request.
pub const RECV_WINDOW: u64 = 5000;

/// Credentials and trading options.
#[derive(Clone, Debug)]
pub struct BybitConfig {
    pub api_key: String,
    pub api_secret: String,
    /// Use the test network.
    pub testnet: bool,
    /// Product category, "linear" for futures.
    pub category: String,
    /// Leverage sent with each order.
    pub leverage: i32,
}

/// The category used when none is configured.
pub fn default_category() -> (r: String)
    ensures
        r@ == "linear"@,
{
    String::from_str("linear")
}

/// The leverage used when none is configured.
pub fn default_leverage() -> (r: i32)
    ensures
        r == 10,
{
    10
}

/// The reply envelope; newer replies carry camel-case `retCode`/`retMsg`,
/// which win over the older fields when present.
#[derive(Clone, Debug)]
pub struct BybitResponse<T> {
    pub ret_code: i32,
    pub ret_msg: String,
    pub result: Option<T>,
    pub ret_code_alt: Option<i32>,
    pub ret_msg_alt: Option<String>,
}

impl<T> BybitResponse<T> {
    /// The effective reply code.
    pub open spec fn spec_ret_code(&self) -> i32 {
        match self.ret_code_alt {
            Some(c) => c,
            None => self.ret_code,
        }
    }

    /// The effective reply message.
    pub open spec fn spec_ret_msg(&self) -> Seq<char> {
        match self.ret_msg_alt {
            Some(m) => m@,
            None => self.ret_msg@,
        }
    }

    /// The effective reply code.
    pub fn ret_code(&self) -> (r: i32)
        ensures
            r == self.spec_ret_code(),
    {
        match self.ret_code_alt {
            Some(c) => c,
            None => self.ret_code,
        }
    }

    /// The effective reply message.
    pub fn ret_msg(&self) -> (r: &str)
        ensures
            r@ == self.spec_ret_msg(),
    {
        match &self.ret_msg_alt {
            Some(m) => m.as_str(),
            None => self.ret_msg.as_str(),
        }
    }

    /// Whether the venue accepted the request: the effective code is 0.
    pub fn is_success(&self) -> (r: bool)
        ensures
            r == (self.spec_ret_code() == 0),
    {
        self.ret_code() == 0
    }
}

/// The `result` of an order reply.
#[derive(Clone, Debug)]
pub struct BybitOrderResult {
    pub order_id: Option<String>,
    pub order_link_id: Option<String>,
}

/// One ticker line, amounts in fixed-point units.
#[derive(Clone, Debug)]
pub struct BybitTicker {
    pub last_price: u64,
    pub bid1_price: u64,
    pub ask1_price: u64,
    pub volume24h: Option<u64>,
}

/// The `result` of a ticker reply.
#[derive(Clone, Debug)]
pub struct BybitTickerList {
    pub list: Option<Vec<BybitTicker>>,
}

/// The fields of an order request, amounts in fixed-point units.
#[derive(Clone, Debug)]
pub struct BybitOrderParams {
    pub category: String,
    pub symbol: String,
    pub side: String,
    pub order_type: String,
    pub qty: u64,
    /// 0: one-way position mode.
    pub position_idx: u32,
    pub price: Option<u64>,
    pub stop_loss: Option<u64>,
    pub take_profit: Option<u64>,
    pub leverage: i32,
}

/// The venue's word for a side.
pub open spec fn spec_side_text(side: OrderSide) -> Seq<char> {
    match side {
        OrderSide::Buy => "Buy"@,
        OrderSide::Sell => "Sell"@,
    }
}

/// The venue's word for an order type.
pub open spec fn spec_order_type_text(t: OrderType) -> Seq<char> {
    match t {
        OrderType::Market => "Market"@,
        OrderType::Limit => "Limit"@,
        OrderType::Stop => "Stop"@,
        OrderType::StopLimit => "StopLimit"@,
        OrderType::TakeProfit => "TakeProfit"@,
        OrderType::StopLoss => "StopLoss"@,
    }
}

/// Base URL of the test or the main network.
pub open spec fn spec_base_url(testnet: bool) -> Seq<char> {
    if testnet {
        "https://api-testnet.bybit.com"@
    } else {
        "https://api.bybit.com"@
    }
}

/// The signed text: timestamp, key, receive window and payload, in that order.
pub open spec fn spec_sign_message(
    timestamp: u64,
    api_key: Seq<char>,
    recv_window: u64,
    payload: Seq<char>,
) -> Seq<char> {
    decimal_of(timestamp as nat) + api_key + decimal_of(recv_window as nat) + payload
}

/// Authentication headers of a GET request.
pub open spec fn spec_get_headers(
    api_key: Seq<char>,
    timestamp: u64,
    signature: Seq<char>,
    recv_window: u64,
) -> Seq<(Seq<char>, Seq<char>)> {
    seq![
        ("X-BAPI-API-KEY"@, api_key),
        ("X-BAPI-TIMESTAMP"@, decimal_of(timestamp as nat)),
        ("X-BAPI-SIGN"@, signature),
        ("X-BAPI-RECV-WINDOW"@, decimal_of(recv_window as nat)),
        ("X-BAPI-SIGN-TYPE"@, "2"@),
    ]
}

/// Authentication headers of a POST request: those of a GET, and the
/// JSON content type.
pub open spec fn spec_post_headers(
    api_key: Seq<char>,
    timestamp: u64,
    signature: Seq<char>,
    recv_window: u64,
) -> Seq<(Seq<char>, Seq<char>)> {
    spec_get_headers(api_key, timestamp, signature, recv_window).push(
        ("Content-Type"@, "application/json"@),
    )
}

/// The message of a reply with a non-zero code.
pub open spec fn spec_api_error(code: i32, msg: Seq<char>) -> Seq<char> {
    "Bybit API error: "@ + signed_decimal_of(code as int) + " - "@ + msg
}

/// The message of a reply that could not be decoded.
pub open spec fn spec_malformed() -> Seq<char> {
    "Bybit API error: malformed response"@
}

/// The order identifier of an accepted order: `orderId`, else `orderLinkId`.
pub open spec fn spec_order_id(result: Option<BybitOrderResult>) -> Option<String> {
    match result {
        Some(r) => match r.order_id {
            Some(id) => Some(id),
            None => r.order_link_id,
        },
        None => None,
    }
}

/// What an order reply means.
///
/// A non-2xx status, an undecodable body and a non-zero code each give a
/// failed result with a message; an accepted order gives a successful one.
pub open spec fn spec_order_outcome(
    order: Order,
    status: u16,
    body: Seq<char>,
    reply: Option<BybitResponse<BybitOrderResult>>,
    quote: Option<u64>,
    timestamp: i64,
    r: ExecutionResult,
) -> bool {
    &&& r.timestamp == timestamp
    &&& if !spec_status_ok(status) {
        !r.success && r.error is Some && r.error->Some_0@ == spec_http_error(status, body)
            && r.order_id is None && r.filled_quantity == 0 && r.average_price == 0
    } else if reply is None {
        !r.success && r.error is Some && r.error->Some_0@ == spec_malformed()
            && r.order_id is None && r.filled_quantity == 0 && r.average_price == 0
    } else if reply->Some_0.spec_ret_code() != 0 {
        !r.success && r.error is Some && r.error->Some_0@ == spec_api_error(
            reply->Some_0.spec_ret_code(),
            reply->Some_0.spec_ret_msg(),
        ) && r.order_id is None && r.filled_quantity == 0 && r.average_price == 0
    } else {
        r.success && r.error is None && r.order_id == spec_order_id(reply->Some_0.result)
            && r.filled_quantity == spec_filled_quantity(order.order_type, order.quantity)
            && r.average_price == spec_average_price(order.order_type, order.price, quote)
    }
}

/// One open position, as the venue reports it.
#[derive(Clone, Debug)]
pub struct BybitPosition {
    pub symbol: String,
    pub side: String,
    pub size: String,
    pub entry_price: String,
    pub mark_price: String,
    pub unrealized_pnl: Option<String>,
    pub leverage: String,
    pub position_value: Option<String>,
}

/// The `result` of a position reply.
#[derive(Clone, Debug)]
pub struct BybitPositionResult {
    pub list: Option<Vec<BybitPosition>>,
}

/// The fields of a leverage request.
#[derive(Clone, Debug)]
pub struct BybitLeverageParams {
    pub category: String,
    pub symbol: String,
    pub buy_leverage: String,
    pub sell_leverage: String,
}

/// What a reply to a request without payload means: `Ok` exactly when the
/// status is 2xx, the body decoded and the code is 0.
pub open spec fn spec_ack<T>(status: u16, reply: Option<BybitResponse<T>>, r: Result<(), PluginError>) -> bool {
    if !spec_status_ok(status) {
        r is Err && r->Err_0 is Transport
    } else if reply is None {
        r is Err && r->Err_0 is Decode
    } else if reply->Some_0.spec_ret_code() != 0 {
        r is Err && r->Err_0 is VenueRejected
    } else {
        r is Ok
    }
}

/// Adapter state: the configuration slot is empty until `init` succeeds.
pub struct BybitPlugin {
    name: String,
    config: Option<BybitConfig>,
    base_url: String,
}

impl BybitPlugin {
    /// Whether `init` has succeeded.
    pub closed spec fn initialized(&self) -> bool {
        self.config is Some
    }

    /// The configuration in force, if any.
    pub closed spec fn spec_config(&self) -> Option<BybitConfig> {
        self.config
    }

    /// The adapter's identifier.
    pub closed spec fn spec_name(&self) -> Seq<char> {
        self.name@
    }

    /// The base URL in use.
    pub closed spec fn spec_base(&self) -> Seq<char> {
        self.base_url@
    }

    /// A fresh, uninitialized adapter called `name`, pointed at the main network.
    pub fn new(name: &str) -> (r: BybitPlugin)
        ensures
            r.spec_name() == name@,
            !r.initialized(),
            r.spec_base() == spec_base_url(false),
    {
        BybitPlugin { name: String::from_str(name), config: None, base_url: String::from_str("https://api.bybit.com") }
    }

    /// The adapter's identifier.
    pub fn name(&self) -> (r: &str)
        ensures
            r@ == self.spec_name(),
    {
        self.name.as_str()
    }

    /// Whether `init` has succeeded.
    pub fn is_initialized(&self) -> (r: bool)
        ensures
            r == self.initialized(),
    {
        self.config.is_some()
    }

    /// Base URL of the test or the main network.
    pub fn get_base_url(&self, testnet: bool) -> (r: &'static str)
        ensures
            r@ == spec_base_url(testnet),
    {
        if testnet {
            "https://api-testnet.bybit.com"
        } else {
            "https://api.bybit.com"
        }
    }

    /// Stores the configuration; fails with `InvalidConfig`, leaving the
    /// adapter as it was, when the key or the secret is empty.
    pub fn init(&mut self, config: BybitConfig) -> (r: Result<(), PluginError>)
        ensures
            r is Ok <==> config.api_key@.len() > 0 && config.api_secret@.len() > 0,
            r is Ok ==> final(self).spec_config() == Some(config)
                && final(self).spec_base() == spec_base_url(config.testnet),
            r is Err ==> r->Err_0 is InvalidConfig && final(self).spec_config() == old(self).spec_config()
                && final(self).spec_base() == old(self).spec_base(),
            final(self).spec_name() == old(self).spec_name(),
    {
        if config.api_key.as_str().is_empty() || config.api_secret.as_str().is_empty() {
            return Err(PluginError::InvalidConfig(String::from_str("Bybit API key and secret must be provided")));
        }
        self.base_url = String::from_str(self.get_base_url(config.testnet));
        self.config = Some(config);
        Ok(())
    }

    /// Hex HMAC-SHA256 of `message` under `secret`.
    pub fn generate_signature(secret: &str, message: &str) -> (r: String)
        ensures
            r@ == spec_hex_signature(secret@, message@),
    {
        hmac_hex(secret, message)
    }

    /// The signed text for a request sent at `timestamp`.
    pub fn sign_message(timestamp: u64, api_key: &str, recv_window: u64, payload: &str) -> (r: String)
        ensures
            r@ == spec_sign_message(timestamp, api_key@, recv_window, payload@),
    {
        join4(decimal_text(timestamp).as_str(), api_key, decimal_text(recv_window).as_str(), payload)
    }

    /// Headers of a GET request whose query string is `query_string`.
    pub fn create_headers_get(
        api_key: &str,
        api_secret: &str,
        recv_window: u64,
        query_string: &str,
        timestamp: u64,
    ) -> (r: Vec<(String, String)>)
        ensures
            pairs_view(r@) == spec_get_headers(
                api_key@,
                timestamp,
                spec_hex_signature(
                    api_secret@,
                    spec_sign_message(timestamp, api_key@, recv_window, query_string@),
                ),
                recv_window,
            ),
    {
        let message = BybitPlugin::sign_message(timestamp, api_key, recv_window, query_string);
        let signature = BybitPlugin::generate_signature(api_secret, message.as_str());
        let mut headers: Vec<(String, String)> = Vec::new();
        headers.push(pair("X-BAPI-API-KEY", api_key));
        headers.push(pair("X-BAPI-TIMESTAMP", decimal_text(timestamp).as_str()));
        headers.push(pair("X-BAPI-SIGN", signature.as_str()));
        headers.push(pair("X-BAPI-RECV-WINDOW", decimal_text(recv_window).as_str()));
        headers.push(pair("X-BAPI-SIGN-TYPE", "2"));
        assert(pairs_view(headers@) =~= spec_get_headers(api_key@, timestamp, signature@, recv_window));
        headers
    }
    /// Headers of a POST request whose JSON body is `json_body`.
    pub fn create_headers_post(
        api_key: &str,
        api_secret: &str,
        recv_window: u64,
        json_body: &str,
        timestamp: u64,
    ) -> (r: Vec<(String, String)>)
        ensures
            pairs_view(r@) == spec_post_headers(
                api_key@,
                timestamp,
                spec_hex_signature(api_secret@, spec_sign_message(timestamp, api_key@, recv_window, json_body@)),
                recv_window,
            ),
    {
        let mut headers = BybitPlugin::create_headers_get(api_key, api_secret, recv_window, json_body, timestamp);
        headers.push(pair("Content-Type", "application/json"));
        headers
    }

    /// The venue's word for a side.
    pub fn side_text(side: OrderSide) -> (r: &'static str)
        ensures
            r@ == spec_side_text(side),
    {
        match side {
            OrderSide::Buy => "Buy",
            OrderSide::Sell => "Sell",
        }
    }

    /// The venue's word for an order type.
    pub fn order_type_text(t: OrderType) -> (r: &'static str)
        ensures
            r@ == spec_order_type_text(t),
    {
        match t {
            OrderType::Market => "Market",
            OrderType::Limit => "Limit",
            OrderType::Stop => "Stop",
            OrderType::StopLimit => "StopLimit",
            OrderType::TakeProfit => "TakeProfit",
            OrderType::StopLoss => "StopLoss",
        }
    }

    /// URL of the order endpoint; fails with `NotInitialized` before `init`.
    pub fn order_endpoint(&self) -> (r: Result<String, PluginError>)
        ensures
            !self.initialized() ==> r == Err::<String, PluginError>(PluginError::NotInitialized),
            self.initialized() ==> r is Ok && r->Ok_0@ == spec_base_url(self.spec_config()->Some_0.testnet)
                + "/v5/order/create"@,
    {
        match &self.config {
            None => Err(PluginError::NotInitialized),
            Some(c) => Ok(join2(self.get_base_url(c.testnet), "/v5/order/create")),
        }
    }

    /// The fields of the order request for `order`; fails with
    /// `NotInitialized` before `init`.
    pub fn order_params(&self, order: &Order) -> (r: Result<BybitOrderParams, PluginError>)
        ensures
            !self.initialized() ==> r == Err::<BybitOrderParams, PluginError>(PluginError::NotInitialized),
            self.initialized() ==> r is Ok && ({
                let p = r->Ok_0;
                let c = self.spec_config()->Some_0;
                &&& p.category@ == c.category@
                &&& p.symbol@ == order.symbol@
                &&& p.side@ == spec_side_text(order.side)
                &&& p.order_type@ == spec_order_type_text(order.order_type)
                &&& p.qty == order.quantity
                &&& p.position_idx == 0
                &&& p.price == order.price
                &&& p.stop_loss == order.stop_loss
                &&& p.take_profit == order.take_profit
                &&& p.leverage == c.leverage
            }),
    {
        match &self.config {
            None => Err(PluginError::NotInitialized),
            Some(c) => Ok(BybitOrderParams {
                category: c.category.clone(),
                symbol: order.symbol.clone(),
                side: String::from_str(BybitPlugin::side_text(order.side)),
                order_type: String::from_str(BybitPlugin::order_type_text(order.order_type)),
                qty: order.quantity,
                position_idx: 0,
                price: order.price,
                stop_loss: order.stop_loss,
                take_profit: order.take_profit,
                leverage: c.leverage,
            }),
        }
    }

    /// Headers for an order request whose serialized body is `json_body`,
    /// sent at `timestamp`; fails with `NotInitialized` before `init`.
    pub fn sign_order(&self, json_body: &str, timestamp: u64) -> (r: Result<Vec<(String, String)>, PluginError>)
        ensures
            !self.initialized() ==> r == Err::<Vec<(String, String)>, PluginError>(PluginError::NotInitialized),
            self.initialized() ==> r is Ok && ({
                let c = self.spec_config()->Some_0;
                pairs_view(r->Ok_0@) == spec_post_headers(
                    c.api_key@,
                    timestamp,
                    spec_hex_signature(c.api_secret@, spec_sign_message(timestamp, c.api_key@, RECV_WINDOW, json_body@)),
                    RECV_WINDOW,
                )
            }),
    {
        match &self.config {
            None => Err(PluginError::NotInitialized),
            Some(c) => Ok(BybitPlugin::create_headers_post(
                c.api_key.as_str(),
                c.api_secret.as_str(),
                RECV_WINDOW,
                json_body,
                timestamp,
            )),
        }
    }

    /// Maps an order reply to a result. Venue-side failures become a failed
    /// result, never an error. `quote` is the last price fetched after a
    /// market order was accepted, if one was had.
    pub fn order_outcome(
        order: &Order,
        status: u16,
        body: &str,
        reply: Option<BybitResponse<BybitOrderResult>>,
        quote: Option<u64>,
        timestamp: i64,
    ) -> (r: ExecutionResult)
        ensures
            spec_order_outcome(*order, status, body@, reply, quote, timestamp, r),
            r.error is Some ==> r.error->Some_0@.len() > 0,
    {
        proof {
            reveal_strlit("HTTP ");
            reveal_strlit("Bybit API error: malformed response");
            reveal_strlit("Bybit API error: ");
        }
        if !status_ok(status) {
            return rejected_result(http_error(status, body), timestamp);
        }
        match reply {
            None => rejected_result(String::from_str("Bybit API error: malformed response"), timestamp),
            Some(resp) => {
                if !resp.is_success() {
                    let msg = join4(
                        "Bybit API error: ",
                        signed_decimal_text(resp.ret_code() as i64).as_str(),
                        " - ",
                        resp.ret_msg(),
                    );
                    return rejected_result(msg, timestamp);
                }
                let order_id = match resp.result {
                    Some(res) => match res.order_id {
                        Some(id) => Some(id),
                        None => res.order_link_id,
                    },
                    None => None,
                };
                placed_result(order, order_id, quote, timestamp)
            },
        }
    }

    /// URL and query of the ticker request for `symbol`; fails with
    /// `NotInitialized` before `init`.
    pub fn ticker_request(&self, symbol: &str) -> (r: Result<(String, Vec<(String, String)>), PluginError>)
        ensures
            !self.initialized() ==> r == Err::<(String, Vec<(String, String)>), PluginError>(PluginError::NotInitialized),
            self.initialized() ==> r is Ok && ({
                let c = self.spec_config()->Some_0;
                &&& r->Ok_0.0@ == spec_base_url(c.testnet) + "/v5/market/tickers"@
                &&& pairs_view(r->Ok_0.1@) == seq![("category"@, c.category@), ("symbol"@, symbol@)]
            }),
    {
        match &self.config {
            None => Err(PluginError::NotInitialized),
            Some(c) => {
                let url = join2(self.get_base_url(c.testnet), "/v5/market/tickers");
                let mut query: Vec<(String, String)> = Vec::new();
                query.push(pair("category", c.category.as_str()));
                query.push(pair("symbol", symbol));
                assert(pairs_view(query@) =~= seq![("category"@, c.category@), ("symbol"@, symbol@)]);
                Ok((url, query))
            },
        }
    }

    /// Maps a ticker reply to a snapshot of the first ticker line.
    pub fn ticker_outcome(
        symbol: &str,
        status: u16,
        body: &str,
        reply: Option<BybitResponse<BybitTickerList>>,
        timestamp: i64,
    ) -> (r: Result<MarketData, PluginError>)
        ensures
            !spec_status_ok(status) ==> r is Err && r->Err_0 is Transport,
            spec_status_ok(status) && reply is None ==> r is Err && r->Err_0 is Decode,
            spec_status_ok(status) && reply is Some && reply->Some_0.spec_ret_code() != 0
                ==> r is Err && r->Err_0 is VenueRejected,
            r is Ok ==> spec_status_ok(status) && reply is Some && reply->Some_0.spec_ret_code() == 0 && ({
                let lines = reply->Some_0.result->Some_0.list->Some_0@;
                let d = r->Ok_0;
                &&& lines.len() > 0
                &&& d.symbol@ == symbol@
                &&& d.last == lines[0].last_price
                &&& d.bid == lines[0].bid1_price
                &&& d.ask == lines[0].ask1_price
                &&& d.volume == match lines[0].volume24h { Some(v) => v, None => 0 }
                &&& d.timestamp == timestamp
            }),
            spec_status_ok(status) && reply is Some && reply->Some_0.spec_ret_code() == 0 && ({
                let res = reply->Some_0.result;
                res is Some && res->Some_0.list is Some && res->Some_0.list->Some_0@.len() > 0
            }) ==> r is Ok,
    {
        if !status_ok(status) {
            return Err(PluginError::Transport(http_error(status, body)));
        }
        match reply {
            None => Err(PluginError::Decode(String::from_str("Bybit API error: malformed response"))),
            Some(resp) => {
                if !resp.is_success() {
                    let msg = join4(
                        "Bybit API error: ",
                        signed_decimal_text(resp.ret_code() as i64).as_str(),
                        " - ",
                        resp.ret_msg(),
                    );
                    return Err(PluginError::VenueRejected(msg));
                }
                match &resp.result {
                    Some(res) => match &res.list {
                        Some(lines) => {
                            if lines.len() > 0 {
                                let t = &lines[0];
                                let volume = match t.volume24h {
                                    Some(v) => v,
                                    None => 0,
                                };
                                return Ok(MarketData {
                                    symbol: String::from_str(symbol),
                                    bid: t.bid1_price,
                                    ask: t.ask1_price,
                                    last: t.last_price,
                                    volume,
                                    timestamp,
                                    extra: Vec::new(),
                                });
                            }
                        },
                        None => {},
                    },
                    None => {},
                }
                Err(PluginError::Decode(join2("No market data found for symbol: ", symbol)))
            },
        }
    }

    /// Checks a reply status, body and code; the shared first half of
    /// every reply mapping.
    fn check_reply<T>(status: u16, body: &str, reply: &Option<BybitResponse<T>>) -> (r: Result<(), PluginError>)
        ensures
            spec_ack(status, *reply, r),
    {
        if !status_ok(status) {
            return Err(PluginError::Transport(http_error(status, body)));
        }
        match reply {
            None => Err(PluginError::Decode(String::from_str("Bybit API error: malformed response"))),
            Some(resp) => if resp.is_success() {
                Ok(())
            } else {
                let msg = join4(
                    "Bybit API error: ",
                    signed_decimal_text(resp.ret_code() as i64).as_str(),
                    " - ",
                    resp.ret_msg(),
                );
                Err(PluginError::VenueRejected(msg))
            },
        }
    }

    /// URL and fields of a request setting the leverage of `symbol`; fails
    /// with `NotInitialized` before `init`.
    pub fn leverage_request(&self, symbol: &str, leverage: i32) -> (r: Result<(String, BybitLeverageParams), PluginError>)
        ensures
            !self.initialized() ==> r == Err::<(String, BybitLeverageParams), PluginError>(PluginError::NotInitialized),
            self.initialized() ==> r is Ok && ({
                let c = self.spec_config()->Some_0;
                let (url, p) = r->Ok_0;
                &&& url@ == spec_base_url(c.testnet) + "/v5/position/set-leverage"@
                &&& p.category@ == c.category@
                &&& p.symbol@ == symbol@
                &&& p.buy_leverage@ == signed_decimal_of(leverage as int)
                &&& p.sell_leverage@ == signed_decimal_of(leverage as int)
            }),
    {
        match &self.config {
            None => Err(PluginError::NotInitialized),
            Some(c) => {
                let url = join2(self.get_base_url(c.testnet), "/v5/position/set-leverage");
                let params = BybitLeverageParams {
                    category: c.category.clone(),
                    symbol: String::from_str(symbol),
                    buy_leverage: signed_decimal_text(leverage as i64),
                    sell_leverage: signed_decimal_text(leverage as i64),
                };
                Ok((url, params))
            },
        }
    }

    /// Maps the reply to a leverage request.
    pub fn leverage_outcome(status: u16, body: &str, reply: Option<BybitResponse<()>>) -> (r: Result<(), PluginError>)
        ensures
            spec_ack(status, reply, r),
    {
        BybitPlugin::check_reply(status, body, &reply)
    }

    /// URL and query of a position request for `symbol`; fails with
    /// `NotInitialized` before `init`.
    pub fn position_request(&self, symbol: &str) -> (r: Result<(String, Vec<(String, String)>), PluginError>)
        ensures
            !self.initialized() ==> r == Err::<(String, Vec<(String, String)>), PluginError>(PluginError::NotInitialized),
            self.initialized() ==> r is Ok && ({
                let c = self.spec_config()->Some_0;
                &&& r->Ok_0.0@ == spec_base_url(c.testnet) + "/v5/position/list"@
                &&& pairs_view(r->Ok_0.1@) == seq![("category"@, c.category@), ("symbol"@, symbol@)]
            }),
    {
        match &self.config {
            None => Err(PluginError::NotInitialized),
            Some(c) => {
                let url = join2(self.get_base_url(c.testnet), "/v5/position/list");
                let mut query: Vec<(String, String)> = Vec::new();
                query.push(pair("category", c.category.as_str()));
                query.push(pair("symbol", symbol));
                assert(pairs_view(query@) =~= seq![("category"@, c.category@), ("symbol"@, symbol@)]);
                Ok((url, query))
            },
        }
    }

    /// Headers for a GET request whose encoded query is `query_string`,
    /// sent at `timestamp`; fails with `NotInitialized` before `init`.
    pub fn sign_query(&self, query_string: &str, timestamp: u64) -> (r: Result<Vec<(String, String)>, PluginError>)
        ensures
            !self.initialized() ==> r == Err::<Vec<(String, String)>, PluginError>(PluginError::NotInitialized),
            self.initialized() ==> r is Ok && ({
                let c = self.spec_config()->Some_0;
                pairs_view(r->Ok_0@) == spec_get_headers(
                    c.api_key@,
                    timestamp,
                    spec_hex_signature(c.api_secret@, spec_sign_message(timestamp, c.api_key@, RECV_WINDOW, query_string@)),
                    RECV_WINDOW,
                )
            }),
    {
        match &self.config {
            None => Err(PluginError::NotInitialized),
            Some(c) => Ok(BybitPlugin::create_headers_get(
                c.api_key.as_str(),
                c.api_secret.as_str(),
                RECV_WINDOW,
                query_string,
                timestamp,
            )),
        }
    }

    /// Maps a position reply to the first position listed, if any.
    pub fn position_outcome(status: u16, body: &str, reply: Option<BybitResponse<BybitPositionResult>>) -> (r: Result<Option<BybitPosition>, PluginError>)
        ensures
            spec_ack(status, reply, match r { Ok(_) => Ok(()), Err(e) => Err(e) }),
            r is Ok ==> ({
                let listed = match reply->Some_0.result {
                    Some(res) => match res.list {
                        Some(l) => l@,
                        None => Seq::empty(),
                    },
                    None => Seq::empty(),
                };
                r->Ok_0 == if listed.len() > 0 { Some(listed[0]) } else { None::<BybitPosition> }
            }),
    {
        match BybitPlugin::check_reply(status, body, &reply) {
            Err(e) => Err(e),
            Ok(()) => {
                let resp = reply.unwrap();
                match resp.result {
                    Some(res) => match res.list {
                        Some(mut l) => if l.len() > 0 {
                            Ok(Some(l.remove(0)))
                        } else {
                            Ok(None)
                        },
                        None => Ok(None),
                    },
                    None => Ok(None),
                }
            },
        }
    }

    /// Health from a probe quote: healthy only when initialized and the probe succeeded.
    pub fn health_verdict(&self, probe_ok: bool) -> (r: bool)
        ensures
            r == (self.initialized() && probe_ok),
    {
        self.config.is_some() && probe_ok
    }
}

} // verus!
