//! Order routing across heterogeneous trading venues.
//!
//! The canonical order model, the per-venue signing and vocabulary rules,
//! the reply interpretation of each venue, and the registry that routes
//! orders to named adapters.

pub mod model;
pub mod signing;
pub mod text;
pub mod plugin;
pub mod mock;
pub mod registry;
pub mod wire;
pub mod bybit;
pub mod kucoin;
pub mod openalgo;
pub mod ccxt;
pub mod signal;
