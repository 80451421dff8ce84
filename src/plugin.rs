//! The capability interface that every execution adapter offers.

use vstd::prelude::*;
use crate::model::{ExecutionResult, MarketData, Order, PluginError};

verus! {

/// An execution backend: places orders, quotes symbols, reports health.
///
/// Each adapter states through its spec functions what its results are;
/// the registry passes those statements on to its own callers.
pub trait ExecutionPlugin {
    /// Whether `init` has completed successfully.
    spec fn initialized(&self) -> bool;

    /// The adapter's identifier.
    spec fn spec_name(&self) -> Seq<char>;

    /// What holds of a result of `execute_order(order)`.
    spec fn execute_post(&self, order: Order, r: Result<ExecutionResult, PluginError>) -> bool;

    /// What holds of a result of `fetch_data(symbol)`.
    spec fn fetch_post(&self, symbol: Seq<char>, r: Result<MarketData, PluginError>) -> bool;

    /// What holds of a result of `health_check()`.
    spec fn health_post(&self, healthy: bool) -> bool;

    /// Places an order; fails with `NotInitialized` before `init`.
    fn execute_order(&self, order: Order) -> (r: Result<ExecutionResult, PluginError>)
        ensures
            self.execute_post(order, r),
            !self.initialized() ==> r == Err::<ExecutionResult, PluginError>(
                PluginError::NotInitialized,
            ),
    ;

    /// Quotes a symbol; fails with `NotInitialized` before `init`.
    fn fetch_data(&self, symbol: &str) -> (r: Result<MarketData, PluginError>)
        ensures
            self.fetch_post(symbol@, r),
            !self.initialized() ==> r == Err::<MarketData, PluginError>(
                PluginError::NotInitialized,
            ),
    ;

    /// The adapter's identifier.
    fn name(&self) -> (r: &str)
        ensures
            r@ == self.spec_name(),
    ;

    /// Whether the adapter is usable; never fails, and false before `init`.
    fn health_check(&self) -> (r: bool)
        ensures
            self.health_post(r),
            !self.initialized() ==> !r,
    ;
}

} // verus!
