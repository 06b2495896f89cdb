//! The OKX-side transport boundary: classification of HTTP responses by the
//! exchange's code/message envelope, and the streaming event vocabulary.

pub mod http;
pub mod ws;
