use fks_execution::model::{
    default_confidence, placed_result, rejected_result, ExecutionResult, Order, OrderSide, OrderType,
    PluginError, DEFAULT_CONFIDENCE, UNITS_PER_WHOLE,
};

fn units(x: f64) -> u64 {
    (x * UNITS_PER_WHOLE as f64).round() as u64
}

fn order(order_type: OrderType, price: Option<f64>) -> Order {
    Order {
        symbol: "BTC/USDT".to_string(),
        side: OrderSide::Buy,
        order_type,
        quantity: units(0.1),
        price: price.map(units),
        stop_loss: None,
        take_profit: None,
        confidence: 7500,
    }
}

#[test]
fn test_order_serialization() {
    let placed = Order {
        symbol: "BTC/USDT".to_string(),
        side: OrderSide::Buy,
        order_type: OrderType::Limit,
        quantity: units(0.1),
        price: Some(units(67500.0)),
        stop_loss: Some(units(67000.0)),
        take_profit: Some(units(69000.0)),
        confidence: 7500,
    };
    let copy = placed.clone();
    assert_eq!(copy.symbol, "BTC/USDT");
    assert_eq!(copy.side, OrderSide::Buy);
    assert_eq!(copy.confidence, 7500);
}

#[test]
fn test_default_confidence() {
    assert_eq!(default_confidence(), 6000);
    assert_eq!(DEFAULT_CONFIDENCE, 6000);
}

#[test]
fn test_execution_result() {
    let result = ExecutionResult {
        success: true,
        order_id: Some("12345".to_string()),
        filled_quantity: units(0.1),
        average_price: units(67520.0),
        error: None,
        timestamp: 1699113600000,
    };
    assert!(result.success);
    assert!(result.error.is_none());
}

#[test]
fn market_order_fills_requested_quantity() {
    let r = placed_result(&order(OrderType::Market, Some(67500.0)), Some("A1".to_string()), None, 5);
    assert!(r.success);
    assert_eq!(r.filled_quantity, 10_000_000);
    assert_eq!(r.average_price, units(67500.0));
    assert_eq!(r.order_id.as_deref(), Some("A1"));
    assert_eq!(r.timestamp, 5);
}

#[test]
fn market_order_prefers_live_quote() {
    let r = placed_result(&order(OrderType::Market, Some(67500.0)), None, Some(units(67600.0)), 5);
    assert_eq!(r.average_price, units(67600.0));
}

#[test]
fn limit_order_starts_unfilled() {
    let r = placed_result(&order(OrderType::Limit, Some(67000.0)), None, Some(units(67600.0)), 5);
    assert_eq!(r.filled_quantity, 0);
    assert_eq!(r.average_price, units(67000.0));
}

#[test]
fn order_without_price_or_quote_reports_zero_price() {
    let r = placed_result(&order(OrderType::Market, None), None, None, 5);
    assert_eq!(r.average_price, 0);
}

#[test]
fn rejected_result_carries_error() {
    let r = rejected_result("no".to_string(), 9);
    assert!(!r.success);
    assert_eq!(r.error.as_deref(), Some("no"));
    assert_eq!(r.filled_quantity, 0);
    assert!(r.order_id.is_none());
}

#[test]
fn error_messages() {
    assert_eq!(PluginError::NotInitialized.message(), "Plugin not initialized");
    assert_eq!(PluginError::RegistryNotFound("x".to_string()).message(), "Plugin 'x' not found");
    assert_eq!(PluginError::RegistryNoDefault.message(), "No default plugin configured");
    assert_eq!(PluginError::Transport("t".to_string()).message(), "t");
    assert_eq!(PluginError::InvalidConfig("c".to_string()).message(), "c");
    assert_eq!(PluginError::VenueRejected("v".to_string()).message(), "v");
    assert_eq!(PluginError::Decode("d".to_string()).message(), "d");
}
