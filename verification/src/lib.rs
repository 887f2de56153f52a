//! One interface over the trading APIs of several cryptocurrency exchanges:
//! the exchange-agnostic model, the translation of requests and responses for
//! the Nash exchange, the cache of tradable market pairs, the translation of
//! pagination cursors, and the normalization of streamed messages.
pub mod coinbase;
pub mod decimal;
pub mod errors;
pub mod exchange;
pub mod info;
pub mod model;
pub mod nash;
pub mod sequence;
pub mod shared;
pub mod websocket;
