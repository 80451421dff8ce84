use fks_execution::mock::MockPlugin;
use fks_execution::model::{Order, OrderSide, OrderType, PluginError, UNITS_PER_WHOLE};
use fks_execution::plugin::ExecutionPlugin;

fn units(x: f64) -> u64 {
    (x * UNITS_PER_WHOLE as f64).round() as u64
}

fn btc_order(side: OrderSide, price: Option<f64>) -> Order {
    Order {
        symbol: "BTC/USDT".to_string(),
        side,
        order_type: OrderType::Market,
        quantity: units(0.1),
        price: price.map(units),
        stop_loss: None,
        take_profit: None,
        confidence: 7500,
    }
}

#[test]
fn test_mock_plugin_init() {
    let mut plugin = MockPlugin::new("test-mock");
    assert_eq!(plugin.name(), "test-mock");
    let result = plugin.init();
    assert!(result.is_ok());
    assert!(plugin.is_initialized());
}

#[test]
fn test_mock_plugin_execute_order() {
    let mut plugin = MockPlugin::new("test-mock");
    plugin.init().unwrap();
    let result = plugin.execute_order(btc_order(OrderSide::Buy, Some(67500.0))).unwrap();
    assert!(result.success);
    assert!(result.order_id.is_some());
    assert_eq!(result.filled_quantity, units(0.1));
    assert!(result.average_price > units(67500.0));
}

#[test]
fn test_mock_plugin_fetch_data() {
    let mut plugin = MockPlugin::new("test-mock");
    plugin.init().unwrap();
    let data = plugin.fetch_data("BTC/USDT").unwrap();
    assert_eq!(data.symbol, "BTC/USDT");
    assert!(data.bid > 0);
    assert!(data.ask > data.bid);
    assert!(data.last > 0);
}

#[test]
fn test_mock_plugin_health_check() {
    let mut plugin = MockPlugin::new("test-mock");
    assert!(!plugin.health_check());
    plugin.init().unwrap();
    assert!(plugin.health_check());
}

#[test]
fn mock_fill_prices_exact() {
    assert_eq!(MockPlugin::fill_price(OrderSide::Buy, Some(units(67500.0))), units(67506.75));
    assert_eq!(MockPlugin::fill_price(OrderSide::Sell, Some(units(67500.0))), units(67493.25));
    assert_eq!(MockPlugin::fill_price(OrderSide::Buy, None), units(67506.75));
    assert_eq!(MockPlugin::fill_price(OrderSide::Buy, Some(u64::MAX)), u64::MAX);
}

#[test]
fn mock_order_id_has_prefix_and_uuid() {
    let mut plugin = MockPlugin::new("m");
    plugin.init().unwrap();
    let r = plugin.execute_order(btc_order(OrderSide::Sell, None)).unwrap();
    let id = r.order_id.unwrap();
    assert!(id.starts_with("MOCK-"));
    assert_eq!(id.len(), 5 + 36);
    let other = plugin.execute_order(btc_order(OrderSide::Sell, None)).unwrap();
    assert_ne!(other.order_id.unwrap(), id);
    assert!(r.timestamp > 1_600_000_000_000);
}

#[test]
fn mock_quote_table() {
    let mut plugin = MockPlugin::new("m");
    plugin.init().unwrap();
    let eur = plugin.fetch_data("EURUSD").unwrap();
    assert_eq!(eur.last, 108_500_000);
    assert_eq!(eur.bid, 108_500_000 - 5425);
    assert_eq!(eur.ask, 108_500_000 + 5425);
    let other = plugin.fetch_data("XYZ").unwrap();
    assert_eq!(other.last, units(100.0));
    assert_eq!(other.volume, units(1_000_000.0));
    assert_eq!(other.extra, vec![("source".to_string(), "mock".to_string())]);
    assert_eq!(MockPlugin::base_price("ETHUSDT"), units(3500.0));
    assert_eq!(MockPlugin::base_price("ES"), units(4420.0));
}

#[test]
fn mock_calls_before_init_fail() {
    let plugin = MockPlugin::new("m");
    assert_eq!(
        plugin.execute_order(btc_order(OrderSide::Buy, None)).unwrap_err(),
        PluginError::NotInitialized
    );
    assert_eq!(plugin.fetch_data("BTC/USDT").unwrap_err(), PluginError::NotInitialized);
}
