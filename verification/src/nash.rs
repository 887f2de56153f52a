//! The adapter for the Nash exchange.
pub mod adapter;
pub mod balances;
pub mod enums;
pub mod market_data;
pub mod markets;
pub mod native;
pub mod requests;
pub mod stream;
pub mod trades;
pub mod utils;
