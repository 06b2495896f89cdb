//! The canonical error taxonomy. Every transport- or exchange-specific
//! failure is mapped into one of these kinds before it reaches a caller, so
//! callers never branch on transport-specific representations.

use vstd::prelude::*;

verus! {

/// A canonical error kind.
#[derive(Debug, Clone, PartialEq, Eq)]
pub enum ExchangeError {
    /// The transport signaled throttling (too many requests, or an
    /// exchange-specific throttling code). Carries the transport's message.
    RateLimited(String),
    /// The transport or exchange reports a temporary outage.
    Unavailable(String),
    /// The requested instrument could not be resolved.
    InstrumentNotFound,
    /// The exchange returned a non-zero status that is not otherwise
    /// classified; the opaque code and message are carried as-is.
    Api { code: String, msg: String },
    /// A dynamic dispatch returned a response variant incompatible with the
    /// request: a routing or adaptation bug, never a silently wrong value.
    WrongResponseType,
    /// A catch-all wrapping an underlying cause that fits no other kind.
    Unknown(String),
}

/// The stable name of an error's kind, independent of its payload.
pub open spec fn spec_kind_name(e: ExchangeError) -> Seq<char> {
    match e {
        ExchangeError::RateLimited(_) => "RateLimited"@,
        ExchangeError::Unavailable(_) => "Unavailable"@,
        ExchangeError::InstrumentNotFound => "InstrumentNotFound"@,
        ExchangeError::Api { .. } => "Api"@,
        ExchangeError::WrongResponseType => "WrongResponseType"@,
        ExchangeError::Unknown(_) => "Unknown"@,
    }
}

impl ExchangeError {
    /// The stable name of this error's kind, independent of its payload.
    pub fn kind_name(&self) -> (r: &'static str)
        ensures
            r@ == spec_kind_name(*self),
    {
        match self {
            ExchangeError::RateLimited(_) => "RateLimited",
            ExchangeError::Unavailable(_) => "Unavailable",
            ExchangeError::InstrumentNotFound => "InstrumentNotFound",
            ExchangeError::Api { .. } => "Api",
            ExchangeError::WrongResponseType => "WrongResponseType",
            ExchangeError::Unknown(_) => "Unknown",
        }
    }
}

} // verus!
