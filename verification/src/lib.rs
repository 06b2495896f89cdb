//! A unification layer for heterogeneous exchange transports: a typed
//! request/response protocol, an adaptation mechanism that lets one request
//! type be served by a handler native to another, a keyed multiplexer that
//! routes requests to independently-readying transports, and a canonical
//! error taxonomy that every transport-specific failure is mapped into.

pub mod binance;
pub mod emulate;
pub mod error;
pub mod exchange;
pub mod json;
pub mod num;
pub mod okx;
pub mod stream;
pub mod types;
