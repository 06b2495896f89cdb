//! The OKX HTTP response envelope: every response carries a `code` and `msg`
//! pair beside its data, and the pair is mapped deterministically into the
//! canonical error taxonomy before anything crosses into the façade.

use vstd::prelude::*;

use crate::error::ExchangeError;
use crate::types::{str_eq, Decimal};

verus! {

/// A candle: one aggregated interval of trading on an instrument.
#[derive(Debug, Clone)]
pub struct Candle {
    /// Interval start, in milliseconds.
    pub ts: i64,
    /// Opening price.
    pub open: Decimal,
    /// Highest price.
    pub high: Decimal,
    /// Lowest price.
    pub low: Decimal,
    /// Closing price.
    pub close: Decimal,
}

/// Response data types.
#[derive(Debug, Clone)]
pub enum ResponseData {
    /// Candle.
    Candle(Candle),
    /// Placeholder.
    Placeholder,
}

/// An OKX HTTP API response with its `code` and `msg` envelope still on.
#[derive(Debug, Clone)]
pub struct FullHttpResponse {
    /// The exchange's status code, as the decimal string it is sent as.
    pub code: String,
    /// The exchange's message.
    pub msg: String,
    /// The payload.
    pub data: Vec<ResponseData>,
}

/// An OKX HTTP API response whose envelope reported success.
#[derive(Debug, Clone)]
pub struct HttpResponse {
    /// The payload.
    pub data: Vec<ResponseData>,
}

/// What the deterministic envelope classification returns for a given code
/// and message: success extracts the payload, the throttling code maps to
/// `RateLimited`, the outage code to `Unavailable`, the unknown-instrument
/// code to `InstrumentNotFound`, and any other non-zero code to `Api` with
/// the code and message carried as-is.
pub open spec fn spec_classify_envelope(full: FullHttpResponse) -> Result<
    HttpResponse,
    ExchangeError,
> {
    if full.code@ == "0"@ {
        Ok(HttpResponse { data: full.data })
    } else if full.code@ == "51001"@ {
        Err(ExchangeError::InstrumentNotFound)
    } else if full.code@ == "50011"@ {
        Err(ExchangeError::RateLimited(full.msg))
    } else if full.code@ == "50013"@ {
        Err(ExchangeError::Unavailable(full.msg))
    } else {
        Err(ExchangeError::Api { code: full.code, msg: full.msg })
    }
}

impl HttpResponse {
    /// Strip the envelope: extract the payload of a successful response, or
    /// map the non-zero code into its one canonical error kind.
    pub fn try_from(full: FullHttpResponse) -> (r: Result<HttpResponse, ExchangeError>)
        ensures
            r == spec_classify_envelope(full),
    {
        if str_eq(full.code.as_str(), "0") {
            Ok(HttpResponse { data: full.data })
        } else if str_eq(full.code.as_str(), "51001") {
            Err(ExchangeError::InstrumentNotFound)
        } else if str_eq(full.code.as_str(), "50011") {
            Err(ExchangeError::RateLimited(full.msg))
        } else if str_eq(full.code.as_str(), "50013") {
            Err(ExchangeError::Unavailable(full.msg))
        } else {
            Err(ExchangeError::Api { code: full.code, msg: full.msg })
        }
    }
}

/// The classification is deterministic: it reads the code alone, so two
/// responses carrying the same code are classified into the same canonical
/// kind, whatever their messages and payloads are.
pub proof fn lemma_classification_deterministic(a: FullHttpResponse, b: FullHttpResponse)
    requires
        a.code@ == b.code@,
    ensures
        (spec_classify_envelope(a) is Ok) == (spec_classify_envelope(b) is Ok),
        (spec_classify_envelope(a) matches Err(ExchangeError::RateLimited(_))) == (
        spec_classify_envelope(b) matches Err(ExchangeError::RateLimited(_))),
        (spec_classify_envelope(a) matches Err(ExchangeError::Unavailable(_))) == (
        spec_classify_envelope(b) matches Err(ExchangeError::Unavailable(_))),
        (spec_classify_envelope(a) matches Err(ExchangeError::InstrumentNotFound)) == (
        spec_classify_envelope(b) matches Err(ExchangeError::InstrumentNotFound)),
        (spec_classify_envelope(a) matches Err(ExchangeError::Api { .. })) == (
        spec_classify_envelope(b) matches Err(ExchangeError::Api { .. })),
{
}

} // verus!
