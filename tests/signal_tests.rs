use fks_execution::mock::MockPlugin;
use fks_execution::model::{ExecutionResult, OrderSide, OrderType, PluginError, DEFAULT_CONFIDENCE, UNITS_PER_WHOLE};
use fks_execution::registry::PluginRegistry;
use fks_execution::signal::{
    normalize_signal, order_reply, parse_order_type, parse_side, route_signal, webhook_reply, SignalError,
    TradeSignal,
};

fn units(x: f64) -> u64 {
    (x * UNITS_PER_WHOLE as f64).round() as u64
}

fn signal(symbol: &str, action: &str, order_type: Option<&str>, quantity: f64) -> TradeSignal {
    TradeSignal {
        symbol: symbol.to_string(),
        action: action.to_string(),
        order_type: order_type.map(|s| s.to_string()),
        quantity: units(quantity),
        price: None,
        stop_loss: None,
        take_profit: None,
        confidence: None,
    }
}

#[test]
fn test_tradingview_webhook_payload_structure() {
    let mut buy = signal("BTC/USDT", "buy", Some("market"), 0.01);
    buy.confidence = Some(8500);
    let o = normalize_signal(buy).unwrap();
    assert_eq!(o.symbol, "BTC/USDT");
    assert_eq!(o.side, OrderSide::Buy);
    assert_eq!(o.order_type, OrderType::Market);
    assert_eq!(o.quantity, units(0.01));
    let mut sell = signal("ETH/USDT", "sell", Some("limit"), 0.5);
    sell.price = Some(units(3500.0));
    sell.stop_loss = Some(units(3600.0));
    sell.take_profit = Some(units(3400.0));
    sell.confidence = Some(7000);
    let o = normalize_signal(sell).unwrap();
    assert_eq!(o.symbol, "ETH/USDT");
    assert_eq!(o.side, OrderSide::Sell);
    assert_eq!(o.price, Some(units(3500.0)));
    assert_eq!(o.stop_loss, Some(units(3600.0)));
    assert_eq!(o.take_profit, Some(units(3400.0)));
}

#[test]
fn test_webhook_payload_defaults() {
    let o = normalize_signal(signal("BTC/USDT", "buy", None, 0.01)).unwrap();
    assert_eq!(o.symbol, "BTC/USDT");
    assert_eq!(o.side, OrderSide::Buy);
    assert_eq!(o.quantity, units(0.01));
    assert_eq!(o.order_type, OrderType::Market);
    assert_eq!(o.confidence, DEFAULT_CONFIDENCE);
}

#[test]
fn test_invalid_action_handling() {
    let r = normalize_signal(signal("BTC/USDT", "invalid_action", None, 0.01));
    assert_eq!(r.unwrap_err(), SignalError::InvalidAction("invalid_action".to_string()));
}

#[test]
fn order_type_words() {
    assert_eq!(parse_order_type("stop_limit"), OrderType::StopLimit);
    assert_eq!(parse_order_type("stoplimit"), OrderType::StopLimit);
    assert_eq!(parse_order_type("Stop_Limit"), OrderType::StopLimit);
    assert_eq!(parse_order_type("TAKE_PROFIT"), OrderType::TakeProfit);
    assert_eq!(parse_order_type("stoploss"), OrderType::StopLoss);
    assert_eq!(parse_order_type("LIMIT"), OrderType::Limit);
    assert_eq!(parse_order_type("stop"), OrderType::Stop);
    assert_eq!(parse_order_type("iceberg"), OrderType::Market);
    assert_eq!(parse_order_type(""), OrderType::Market);
}

#[test]
fn side_words() {
    assert_eq!(parse_side("BUY"), Some(OrderSide::Buy));
    assert_eq!(parse_side("Sell"), Some(OrderSide::Sell));
    assert_eq!(parse_side("hold"), None);
    assert_eq!(parse_side(""), None);
}

#[test]
fn routing_a_signal() {
    let mut registry = PluginRegistry::new();
    let mut mock = MockPlugin::new("mock1");
    mock.init().unwrap();
    registry.register("mock1".to_string(), mock);
    let r = route_signal(&registry, signal("BTC/USDT", "buy", None, 0.1), None).unwrap();
    assert!(r.success);
    assert_eq!(r.filled_quantity, units(0.1));
    let e = route_signal(&registry, signal("BTC/USDT", "buy", None, 0.1), Some("other")).unwrap_err();
    assert_eq!(e, SignalError::Execution(PluginError::RegistryNotFound("other".to_string())));
    let e = route_signal(&registry, signal("BTC/USDT", "short", None, 0.1), None).unwrap_err();
    assert!(matches!(e, SignalError::InvalidAction(_)));
}

fn result(success: bool) -> ExecutionResult {
    ExecutionResult {
        success,
        order_id: if success { Some("7".to_string()) } else { None },
        filled_quantity: 3,
        average_price: 4,
        error: if success { None } else { Some("rejected".to_string()) },
        timestamp: 11,
    }
}

#[test]
fn webhook_replies() {
    let r = webhook_reply(Ok(result(true)));
    assert_eq!((r.status_code, r.success, r.order_id.as_deref()), (200, true, Some("7")));
    let r = webhook_reply(Ok(result(false)));
    assert_eq!((r.status_code, r.error.as_deref()), (500, Some("rejected")));
    let r = webhook_reply(Err(SignalError::InvalidAction("hold".to_string())));
    assert_eq!((r.status_code, r.error.as_deref()), (400, Some("Invalid action: hold")));
    let r = webhook_reply(Err(SignalError::Execution(PluginError::RegistryNoDefault)));
    assert_eq!((r.status_code, r.error.as_deref()), (500, Some("Execution error: No default plugin configured")));
}

#[test]
fn order_replies() {
    let r = order_reply(Ok(result(false)), 99);
    assert_eq!((r.status_code, r.success, r.timestamp, r.filled_quantity), (200, false, 11, 3));
    let r = order_reply(Err(SignalError::InvalidAction("up".to_string())), 99);
    assert_eq!((r.status_code, r.error.as_deref(), r.timestamp), (400, Some("Invalid side: up"), 99));
    let r = order_reply(Err(SignalError::Execution(PluginError::RegistryNotFound("x".to_string()))), 99);
    assert_eq!((r.status_code, r.error.as_deref()), (500, Some("Execution error: Plugin 'x' not found")));
}
