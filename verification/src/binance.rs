//! The Binance-side transport boundary: REST response classification, the
//! request/response union over the two transports, and the keyed multiplexer
//! that owns them.

pub mod response;
pub mod service;
