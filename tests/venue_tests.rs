use fks_execution::bybit::{
    default_category, default_leverage, BybitConfig, BybitOrderResult, BybitPlugin, BybitResponse,
    BybitTicker, BybitTickerList,
};
use fks_execution::ccxt::{default_exchange, CCXTConfig, CCXTPlugin, TickerResponse, WebhookPayload, WebhookResponse};
use fks_execution::kucoin::{
    default_trading_type, KuCoinConfig, KuCoinOrderResult, KuCoinPlugin, KuCoinResponse, KuCoinTicker,
};
use fks_execution::model::{Order, OrderSide, OrderType, PluginError, UNITS_PER_WHOLE};
use fks_execution::openalgo::{OpenAlgoConfig, OpenAlgoOrderResponse, OpenAlgoPlugin, OpenAlgoQuote};

fn units(x: f64) -> u64 {
    (x * UNITS_PER_WHOLE as f64).round() as u64
}

fn order(symbol: &str, order_type: OrderType) -> Order {
    Order {
        symbol: symbol.to_string(),
        side: OrderSide::Buy,
        order_type,
        quantity: units(0.1),
        price: Some(units(67500.0)),
        stop_loss: Some(units(67000.0)),
        take_profit: None,
        confidence: 7500,
    }
}

fn pairs(v: &[(&str, &str)]) -> Vec<(String, String)> {
    v.iter().map(|(a, b)| (a.to_string(), b.to_string())).collect()
}

fn bybit_config() -> BybitConfig {
    BybitConfig {
        api_key: "k1".to_string(),
        api_secret: "s1".to_string(),
        testnet: true,
        category: default_category(),
        leverage: default_leverage(),
    }
}

fn bybit_reply(code: i32, msg: &str, id: Option<&str>) -> BybitResponse<BybitOrderResult> {
    BybitResponse {
        ret_code: code,
        ret_msg: msg.to_string(),
        result: Some(BybitOrderResult { order_id: id.map(|s| s.to_string()), order_link_id: Some("link".to_string()) }),
        ret_code_alt: None,
        ret_msg_alt: None,
    }
}

fn kucoin_config(trading_type: &str) -> KuCoinConfig {
    KuCoinConfig {
        api_key: "key".to_string(),
        api_secret: "sec".to_string(),
        api_passphrase: "pass".to_string(),
        testnet: false,
        trading_type: trading_type.to_string(),
        leverage: 10,
    }
}

fn ccxt_ready() -> CCXTPlugin {
    let mut p = CCXTPlugin::new("test-ccxt");
    p.init(CCXTConfig {
        base_url: "http://localhost:8000".to_string(),
        webhook_secret: "test-secret".to_string(),
        exchange: default_exchange(),
        testnet: false,
    })
    .unwrap();
    p
}

#[test]
fn test_signature_generation() {
    let payload = r#"{"timestamp":1699113600,"symbol":"BTC/USDT","action":"buy"}"#;
    let secret = "test-secret";
    let sig1 = CCXTPlugin::generate_signature(payload, secret);
    let sig2 = CCXTPlugin::generate_signature(payload, secret);
    assert_eq!(sig1, sig2);
    assert!(!sig1.is_empty());
}

#[test]
fn test_ccxt_plugin_not_initialized() {
    let plugin = CCXTPlugin::new("test-ccxt");
    let mut o = order("BTC/USDT", OrderType::Market);
    o.price = None;
    let result = plugin.webhook_payload(&o, 1699113600);
    assert!(result.is_err());
}

#[test]
fn test_webhook_payload_serialization() {
    let payload = WebhookPayload {
        timestamp: 1699113600,
        symbol: "BTC/USDT".to_string(),
        action: "buy".to_string(),
        order_type: "market".to_string(),
        quantity: units(0.1),
        price: Some(units(67500.0)),
        stop_loss: Some(units(67000.0)),
        take_profit: Some(units(69000.0)),
        confidence: 7500,
    };
    let text = format!("{:?}", payload);
    assert!(text.contains("BTC/USDT"));
    assert!(text.contains("buy"));
    assert!(text.contains("7500"));
}

#[test]
fn hex_signature_matches_known_vector() {
    assert_eq!(
        CCXTPlugin::generate_signature("The quick brown fox jumps over the lazy dog", "key"),
        "f7bc83f430538424b13298e6aa6fb143ef4d59a14946175997479dbc2d1a3cd8"
    );
    assert_eq!(
        BybitPlugin::generate_signature("key", "The quick brown fox jumps over the lazy dog"),
        "f7bc83f430538424b13298e6aa6fb143ef4d59a14946175997479dbc2d1a3cd8"
    );
}

#[test]
fn base64_signature_matches_known_vector() {
    assert_eq!(
        KuCoinPlugin::generate_signature("key", "The quick brown fox jumps over the lazy dog"),
        "97yD9DBThCSxMpjmqm+xQ+9NWaFJRhdZl0edvC0aPNg="
    );
    assert_eq!(KuCoinPlugin::encrypt_passphrase("sec", "pass"), "o2kzqUHKS5/3ev30SFLpp7KSzrFXkdGzSmrQvYEUEOM=");
}

#[test]
fn flipping_a_payload_byte_changes_signature() {
    let a = CCXTPlugin::generate_signature(r#"{"a":1}"#, "s");
    let b = CCXTPlugin::generate_signature(r#"{"a":2}"#, "s");
    assert_ne!(a, b);
    let c = BybitPlugin::create_headers_post("k", "s", 5000, r#"{"a":1}"#, 1);
    let d = BybitPlugin::create_headers_post("k", "s", 5000, r#"{"a":1}"#, 2);
    assert_ne!(c[2].1, d[2].1);
}

#[test]
fn bybit_headers_exact() {
    let h = BybitPlugin::create_headers_post("k1", "s1", 5000, r#"{"a":1}"#, 1699113600000);
    assert_eq!(
        h,
        pairs(&[
            ("X-BAPI-API-KEY", "k1"),
            ("X-BAPI-TIMESTAMP", "1699113600000"),
            ("X-BAPI-SIGN", "b3c795e1795f36b6db2bb777006c9d9d27864bc672f05894909eb91a595056e3"),
            ("X-BAPI-RECV-WINDOW", "5000"),
            ("X-BAPI-SIGN-TYPE", "2"),
            ("Content-Type", "application/json"),
        ])
    );
    let g = BybitPlugin::create_headers_get("k1", "s1", 5000, r#"{"a":1}"#, 1699113600000);
    assert_eq!(g.len(), 5);
    assert_eq!(g[2].1, "b3c795e1795f36b6db2bb777006c9d9d27864bc672f05894909eb91a595056e3");
}

#[test]
fn bybit_init_and_requests() {
    let mut p = BybitPlugin::new("bybit");
    assert!(!p.is_initialized());
    assert_eq!(p.order_endpoint().unwrap_err(), PluginError::NotInitialized);
    assert_eq!(p.ticker_request("BTCUSDT").unwrap_err(), PluginError::NotInitialized);
    assert!(p.order_params(&order("BTCUSDT", OrderType::Limit)).is_err());
    let mut empty = bybit_config();
    empty.api_secret = String::new();
    assert!(matches!(p.init(empty), Err(PluginError::InvalidConfig(_))));
    assert!(!p.is_initialized());
    p.init(bybit_config()).unwrap();
    assert_eq!(p.order_endpoint().unwrap(), "https://api-testnet.bybit.com/v5/order/create");
    let (url, query) = p.ticker_request("BTCUSDT").unwrap();
    assert_eq!(url, "https://api-testnet.bybit.com/v5/market/tickers");
    assert_eq!(query, pairs(&[("category", "linear"), ("symbol", "BTCUSDT")]));
    let params = p.order_params(&order("BTCUSDT", OrderType::StopLimit)).unwrap();
    assert_eq!(params.side, "Buy");
    assert_eq!(params.order_type, "StopLimit");
    assert_eq!(params.category, "linear");
    assert_eq!(params.leverage, 10);
    assert_eq!(params.qty, units(0.1));
    let headers = p.sign_order(r#"{"a":1}"#, 1699113600000).unwrap();
    assert_eq!(headers[0].1, "k1");
    assert_eq!(headers[2].1, "b3c795e1795f36b6db2bb777006c9d9d27864bc672f05894909eb91a595056e3");
    assert_eq!(p.get_base_url(false), "https://api.bybit.com");
}

#[test]
fn bybit_envelope_prefers_camel_case() {
    let mut r = bybit_reply(0, "OK", None);
    assert!(r.is_success());
    r.ret_code_alt = Some(10001);
    r.ret_msg_alt = Some("params error".to_string());
    assert_eq!(r.ret_code(), 10001);
    assert_eq!(r.ret_msg(), "params error");
    assert!(!r.is_success());
}

#[test]
fn venue_error_code_with_http_ok_is_failed_result() {
    let o = order("BTCUSDT", OrderType::Market);
    let r = BybitPlugin::order_outcome(&o, 200, "{}", Some(bybit_reply(10001, "params error", None)), None, 7);
    assert!(!r.success);
    assert_eq!(r.error.as_deref(), Some("Bybit API error: 10001 - params error"));
    assert!(r.order_id.is_none());
    let r = BybitPlugin::order_outcome(&o, 200, "{}", Some(bybit_reply(-1, "bad", None)), None, 7);
    assert_eq!(r.error.as_deref(), Some("Bybit API error: -1 - bad"));
}

#[test]
fn bybit_outcomes() {
    let o = order("BTCUSDT", OrderType::Market);
    let r = BybitPlugin::order_outcome(&o, 503, "down", None, None, 7);
    assert_eq!(r.error.as_deref(), Some("HTTP 503: down"));
    let r = BybitPlugin::order_outcome(&o, 200, "<html>", None, None, 7);
    assert!(!r.success);
    assert!(!r.error.unwrap().is_empty());
    let r = BybitPlugin::order_outcome(&o, 200, "{}", Some(bybit_reply(0, "OK", Some("ID9"))), Some(units(67777.0)), 7);
    assert!(r.success);
    assert_eq!(r.order_id.as_deref(), Some("ID9"));
    assert_eq!(r.filled_quantity, units(0.1));
    assert_eq!(r.average_price, units(67777.0));
    let r = BybitPlugin::order_outcome(&order("BTCUSDT", OrderType::Limit), 200, "{}", Some(bybit_reply(0, "OK", None)), None, 7);
    assert_eq!(r.order_id.as_deref(), Some("link"));
    assert_eq!(r.filled_quantity, 0);
    assert_eq!(r.average_price, units(67500.0));
}

#[test]
fn bybit_ticker_outcomes() {
    let ticker = BybitTicker { last_price: 50, bid1_price: 49, ask1_price: 51, volume24h: None };
    let reply = BybitResponse {
        ret_code: 0,
        ret_msg: "OK".to_string(),
        result: Some(BybitTickerList { list: Some(vec![ticker]) }),
        ret_code_alt: None,
        ret_msg_alt: None,
    };
    let d = BybitPlugin::ticker_outcome("BTCUSDT", 200, "", Some(reply.clone()), 3).unwrap();
    assert_eq!((d.bid, d.ask, d.last, d.volume, d.timestamp), (49, 51, 50, 0, 3));
    assert!(matches!(BybitPlugin::ticker_outcome("X", 500, "e", None, 3), Err(PluginError::Transport(_))));
    assert!(matches!(BybitPlugin::ticker_outcome("X", 200, "e", None, 3), Err(PluginError::Decode(_))));
    let mut rejected = reply.clone();
    rejected.ret_code = 1;
    assert!(matches!(BybitPlugin::ticker_outcome("X", 200, "", Some(rejected), 3), Err(PluginError::VenueRejected(_))));
    let mut empty = reply;
    empty.result = Some(BybitTickerList { list: Some(vec![]) });
    assert_eq!(
        BybitPlugin::ticker_outcome("X", 200, "", Some(empty), 3).unwrap_err(),
        PluginError::Decode("No market data found for symbol: X".to_string())
    );
}

#[test]
fn kucoin_headers_exact() {
    let h = KuCoinPlugin::create_headers("POST", "/api/v1/orders", "{}", "key", "sec", "pass", 1699113600000);
    assert_eq!(
        h,
        pairs(&[
            ("KC-API-KEY", "key"),
            ("KC-API-SIGN", "+E7VDJR2FHB/CCyjjI3PbKcJrzhhj8gxNJYEESucic4="),
            ("KC-API-TIMESTAMP", "1699113600000"),
            ("KC-API-PASSPHRASE", "o2kzqUHKS5/3ev30SFLpp7KSzrFXkdGzSmrQvYEUEOM="),
            ("KC-API-KEY-VERSION", "2"),
            ("Content-Type", "application/json"),
        ])
    );
}

#[test]
fn kucoin_symbols_and_params() {
    assert_eq!(KuCoinPlugin::venue_symbol("BTCUSDT"), "BTC-USDT");
    assert_eq!(KuCoinPlugin::venue_symbol("BTC-USDT"), "BTC-USDT");
    assert_eq!(KuCoinPlugin::venue_symbol("XBTUSDTM"), "XBTUSDTM");
    assert_eq!(KuCoinPlugin::venue_symbol("USDT"), "-USDT");
    let mut p = KuCoinPlugin::new("kucoin");
    assert!(p.order_params(&order("BTCUSDT", OrderType::Market), 5).is_err());
    assert!(matches!(
        p.init(KuCoinConfig { api_passphrase: String::new(), ..kucoin_config("futures") }),
        Err(PluginError::InvalidConfig(_))
    ));
    p.init(kucoin_config(&default_trading_type())).unwrap();
    let params = p.order_params(&order("BTCUSDT", OrderType::StopLimit), 1699113600000).unwrap();
    assert_eq!(params.client_oid, "fks-1699113600000");
    assert_eq!(params.symbol, "BTC-USDT");
    assert_eq!(params.order_type, "stopLimit");
    assert_eq!(params.side, "buy");
    assert_eq!(params.stop.as_deref(), Some("down"));
    assert_eq!(params.stop_price, Some(units(67000.0)));
    assert_eq!(params.leverage, Some(10));
    assert_eq!(p.order_url().unwrap(), "https://api.kucoin.com/api/v1/orders");
    assert_eq!(p.ticker_url("ETHUSDT").unwrap(), "https://api.kucoin.com/api/v1/ticker?symbol=ETH-USDT");
    let mut spot = KuCoinPlugin::new("spot");
    spot.init(kucoin_config("spot")).unwrap();
    let params = spot.order_params(&order("BTCUSDT", OrderType::Market), 1).unwrap();
    assert!(params.stop.is_none());
    assert!(params.leverage.is_none());
    assert_eq!(
        spot.ticker_url("BTC-USDT").unwrap(),
        "https://api.kucoin.com/api/v1/market/orderbook/level1?symbol=BTC-USDT"
    );
    let signed = spot.sign_request("POST", "/api/v1/orders", "{}", 1699113600000).unwrap();
    assert_eq!(signed[1].1, "+E7VDJR2FHB/CCyjjI3PbKcJrzhhj8gxNJYEESucic4=");
}

#[test]
fn kucoin_envelope_and_outcomes() {
    let ok: KuCoinResponse<KuCoinOrderResult> = KuCoinResponse {
        code: Some("200000".to_string()),
        data: Some(KuCoinOrderResult { order_id: None, order_id_alt: Some("OID".to_string()) }),
        msg: None,
    };
    assert!(ok.is_success());
    assert_eq!(ok.error_msg(), "Unknown error");
    assert_eq!(ok.data.as_ref().unwrap().order_id().as_deref(), Some("OID"));
    let o = order("BTCUSDT", OrderType::Market);
    let r = KuCoinPlugin::order_outcome(&o, 200, "", Some(ok), None, 1);
    assert!(r.success);
    assert_eq!(r.order_id.as_deref(), Some("OID"));
    assert_eq!(r.average_price, units(67500.0));
    let bad: KuCoinResponse<KuCoinOrderResult> =
        KuCoinResponse { code: Some("400100".to_string()), data: None, msg: Some("Balance insufficient".to_string()) };
    assert!(!bad.is_success());
    let r = KuCoinPlugin::order_outcome(&o, 200, "", Some(bad), None, 1);
    assert!(!r.success);
    assert_eq!(r.error.as_deref(), Some("KuCoin API error: 400100 - Balance insufficient"));
    let r = KuCoinPlugin::order_outcome(&o, 401, "denied", None, None, 1);
    assert_eq!(r.error.as_deref(), Some("HTTP 401: denied"));
    let no_code: KuCoinResponse<KuCoinOrderResult> = KuCoinResponse { code: None, data: None, msg: None };
    assert!(no_code.is_success());
}

#[test]
fn kucoin_ticker_outcomes() {
    let t = KuCoinTicker { price: None, best_bid: None, best_ask: Some(12), last_price: Some(10), volume: None };
    let reply = KuCoinResponse { code: Some("200000".to_string()), data: Some(t), msg: None };
    let d = KuCoinPlugin::ticker_outcome("BTC-USDT", 200, "", Some(reply), 4).unwrap();
    assert_eq!((d.last, d.bid, d.ask, d.volume), (10, 10, 12, 0));
    let none = KuCoinTicker { price: None, best_bid: None, best_ask: None, last_price: None, volume: None };
    let reply = KuCoinResponse { code: None, data: Some(none), msg: None };
    assert!(matches!(KuCoinPlugin::ticker_outcome("X", 200, "", Some(reply), 4), Err(PluginError::Decode(_))));
    assert!(matches!(KuCoinPlugin::ticker_outcome("X", 404, "", None, 4), Err(PluginError::Transport(_))));
}

#[test]
fn test_symbol_conversion() {
    let plugin = OpenAlgoPlugin::new("test");
    let (symbol, exchange) = plugin.convert_symbol("RELIANCE");
    assert_eq!(symbol, "RELIANCE");
    assert_eq!(exchange, "NSE");
    let (symbol, exchange) = plugin.convert_symbol("INFY-BSE");
    assert_eq!(symbol, "INFY");
    assert_eq!(exchange, "BSE");
}

#[test]
fn symbol_conversion_suffixes_and_case() {
    let plugin = OpenAlgoPlugin::new("test");
    assert_eq!(plugin.convert_symbol("tcs-NSE"), ("TCS".to_string(), "NSE".to_string()));
    assert_eq!(plugin.convert_symbol("sbin"), ("SBIN".to_string(), "NSE".to_string()));
    assert_eq!(plugin.get_product_type("NIFTY24JUNFUT"), "NRML");
    assert_eq!(plugin.get_product_type("BANKNIFTYOPT"), "NRML");
    assert_eq!(plugin.get_product_type("RELIANCE"), "MIS");
}

#[test]
fn test_order_type_conversion() {
    let plugin = OpenAlgoPlugin::new("test");
    assert_eq!(plugin.convert_order_type(&OrderType::Market), "MARKET");
    assert_eq!(plugin.convert_order_type(&OrderType::Limit), "LIMIT");
    assert_eq!(plugin.convert_order_type(&OrderType::Stop), "SL-M");
    assert_eq!(plugin.convert_order_type(&OrderType::StopLimit), "SL");
}

#[test]
fn test_default_config() {
    let config = OpenAlgoConfig::default();
    assert!(config.sandbox_mode);
    assert_eq!(config.broker, "paper");
}

#[test]
fn openalgo_settings_and_markets() {
    let c = OpenAlgoConfig::from_settings(None, Some("k".to_string()), Some("FALSE".to_string()), None);
    assert!(!c.sandbox_mode);
    assert_eq!(c.base_url, "http://openalgo:5000");
    let c = OpenAlgoConfig::from_settings(Some("http://x".to_string()), None, Some("True".to_string()), Some("zerodha".to_string()));
    assert!(c.sandbox_mode);
    assert_eq!(c.broker, "zerodha");
    let p = OpenAlgoPlugin::new("oa");
    assert_eq!(p.supported_markets(), vec!["NSE", "BSE", "NFO", "MCX", "CDS"]);
}

#[test]
fn openalgo_requests_and_outcomes() {
    let mut p = OpenAlgoPlugin::new("oa");
    let o = Order { quantity: 25 * UNITS_PER_WHOLE + 5, ..order("infy-BSE", OrderType::Limit) };
    assert_eq!(p.order_request(&o).unwrap_err(), PluginError::NotInitialized);
    assert_eq!(p.quote_url("INFY").unwrap_err(), PluginError::NotInitialized);
    p.init(None).unwrap();
    let q = p.order_request(&o).unwrap();
    assert_eq!((q.symbol.as_str(), q.exchange.as_str(), q.action.as_str()), ("INFY", "BSE", "BUY"));
    assert_eq!(q.quantity, 25);
    assert_eq!(q.product, "MIS");
    assert_eq!(q.trigger_price, Some(units(67000.0)));
    assert_eq!(p.order_url().unwrap(), "http://openalgo:5000/api/v1/orders");
    assert_eq!(p.quote_url("INFY-BSE").unwrap(), "http://openalgo:5000/api/v1/quote?symbol=INFY&exchange=BSE");
    let ok = OpenAlgoOrderResponse { status: "success".to_string(), order_id: Some("9".to_string()), message: None };
    let r = OpenAlgoPlugin::order_outcome(&o, 200, "", Some(ok), None, 2);
    assert!(r.success);
    assert_eq!(r.filled_quantity, 0);
    let rej = OpenAlgoOrderResponse { status: "error".to_string(), order_id: None, message: None };
    let r = OpenAlgoPlugin::order_outcome(&o, 200, "", Some(rej), None, 2);
    assert!(!r.success);
    assert_eq!(r.error.as_deref(), Some("Order rejected by OpenAlgo"));
    let r = OpenAlgoPlugin::order_outcome(&o, 500, "boom", None, None, 2);
    assert_eq!(r.error.as_deref(), Some("API error 500: boom"));
    let d = p.quote_outcome("INFY-BSE", 200, Some(OpenAlgoQuote { bid: Some(10), ask: Some(13), ltp: None, volume: None }), 2).unwrap();
    assert_eq!(d.last, 11);
    assert!(d.extra.contains(&("exchange".to_string(), "BSE".to_string())));
    let d = p.quote_outcome("INFY", 502, None, 2).unwrap();
    assert_eq!((d.bid, d.ask, d.last), (0, 0, 0));
    assert!(p.health_verdict(Some(200)));
    assert!(!p.health_verdict(None));
}

#[test]
fn ccxt_requests_and_outcomes() {
    let mut bad = CCXTPlugin::new("c");
    assert!(matches!(
        bad.init(CCXTConfig { base_url: "u".to_string(), webhook_secret: String::new(), exchange: "x".to_string(), testnet: false }),
        Err(PluginError::InvalidConfig(_))
    ));
    let p = ccxt_ready();
    assert_eq!(p.webhook_url().unwrap(), "http://localhost:8000/webhook/tradingview");
    assert_eq!(p.ticker_url("BTC/USDT").unwrap(), "http://localhost:8000/ticker/BTC/USDT");
    let payload = p.webhook_payload(&order("BTC/USDT", OrderType::StopLoss), 1699113600).unwrap();
    assert_eq!(payload.order_type, "stop_loss");
    assert_eq!(payload.confidence, 7500);
    let headers = p.sign_payload("The quick brown fox jumps over the lazy dog").unwrap();
    assert_eq!(headers[0].0, "X-Webhook-Signature");
    let ok = WebhookResponse { status: "ok".to_string(), message: None, order_id: Some("1".to_string()), filled_quantity: Some(5), average_price: None };
    let r = CCXTPlugin::order_outcome(200, "", Some(ok), 3);
    assert!(r.success && r.error.is_none());
    assert_eq!(r.filled_quantity, 5);
    let err = WebhookResponse { status: "error".to_string(), message: Some("no funds".to_string()), order_id: None, filled_quantity: None, average_price: None };
    let r = CCXTPlugin::order_outcome(200, "", Some(err), 3);
    assert!(!r.success);
    assert_eq!(r.error.as_deref(), Some("no funds"));
    let r = CCXTPlugin::order_outcome(200, "", None, 3);
    assert!(!r.success && r.error.is_some());
    let t = TickerResponse { symbol: "BTC/USDT".to_string(), bid: None, ask: None, last: 100_000, volume: None, timestamp: None };
    let d = p.ticker_outcome("BTC/USDT", 200, Some(t), 77).unwrap();
    assert_eq!((d.bid, d.ask, d.timestamp), (99_990, 100_010, 77));
    assert!(matches!(p.ticker_outcome("X", 500, None, 1), Err(PluginError::Transport(_))));
    assert!(p.health_verdict(Some(204)));
    assert!(!ccxt_ready().health_verdict(Some(500)));
}
