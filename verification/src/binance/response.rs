//! The Binance REST response boundary: a response is classified by its HTTP
//! status before its body is trusted, throttling and outage statuses map
//! deterministically into the canonical taxonomy, and only then is the body
//! handed on as data.

use vstd::prelude::*;

use vstd::string::StringExecFns;

use crate::error::{spec_kind_name, ExchangeError};
use crate::json::{json_error_message, json_from_slice, json_render, spec_json_doc, spec_json_text};
use crate::types::InstrumentMeta;

verus! {

/// An HTTP status code, opaque to the core; only its numeric value is read.
#[verifier::external_type_specification]
#[verifier::external_body]
pub struct ExStatusCode(http::StatusCode);

/// The numeric value of a status code; a name for what
/// http::StatusCode::as_u16 returns, which depends on the status alone.
pub uninterp spec fn spec_status_u16(status: http::StatusCode) -> u16;

/// Relies on http::StatusCode::as_u16: the status's numeric value.
#[verifier::external_body]
pub fn status_as_u16(status: &http::StatusCode) -> (r: u16)
    ensures
        r == spec_status_u16(*status),
{
    status.as_u16()
}

/// A REST-transport failure, before it is mapped into the canonical taxonomy.
#[derive(Debug, Clone)]
pub enum RestError {
    /// An error already classified into the canonical taxonomy.
    Exchange(ExchangeError),
    /// The body could not be decoded as JSON; carries the decoder's message.
    Json(String),
}

impl RestError {
    /// Map into the canonical taxonomy: a classified error passes through,
    /// and a decode failure wraps its message as an unclassified cause.
    pub fn into_exchange_error(self) -> (r: ExchangeError)
        ensures
            r == match self {
                RestError::Exchange(e) => e,
                RestError::Json(m) => ExchangeError::Unknown(m),
            },
    {
        match self {
            RestError::Exchange(e) => e,
            RestError::Json(m) => ExchangeError::Unknown(m),
        }
    }
}

/// Exchange info: the instrument listing an exchange-information call yields.
#[derive(Debug, Clone)]
pub struct ExchangeInfo {
    /// The instruments listed.
    pub symbols: Vec<InstrumentMeta>,
}

/// Binance rest api response data.
#[derive(Debug)]
pub enum Data {
    /// Exchange info.
    ExchangeInfo(ExchangeInfo),
    /// Unknwon.
    Unknwon(serde_json::Value),
}

/// Conversion out of decoded response data: `Self` is what a caller wants
/// from a response holding a `T`, and the conversion is total in the error
/// channel.
pub trait FromData<T>: Sized {
    /// What the conversion returns, as a mathematical function.
    spec fn spec_from_data(data: T) -> Result<Self, RestError>;

    /// Convert the data, or say exactly why it does not fit.
    fn from_data(data: T) -> (r: Result<Self, RestError>)
        ensures
            r == Self::spec_from_data(data),
    ;
}

impl FromData<Data> for ExchangeInfo {
    open spec fn spec_from_data(data: Data) -> Result<Self, RestError> {
        match data {
            Data::ExchangeInfo(info) => Ok(info),
            Data::Unknwon(_) => Err(
                RestError::Exchange(ExchangeError::WrongResponseType),
            ),
        }
    }

    fn from_data(data: Data) -> (r: Result<Self, RestError>) {
        match data {
            Data::ExchangeInfo(info) => Ok(info),
            Data::Unknwon(_) => Err(RestError::Exchange(ExchangeError::WrongResponseType)),
        }
    }
}

/// Binance rest api response.
#[derive(Debug)]
pub struct RestResponse<T> {
    data: T,
}

impl<T> RestResponse<T> {
    /// The data this response carries.
    pub closed spec fn spec_inner(self) -> T {
        self.data
    }

    /// A response carrying the given data.
    pub fn new(data: T) -> (r: Self)
        ensures
            r.spec_inner() == data,
    {
        RestResponse { data }
    }

    /// Into inner data.
    pub fn into_inner(self) -> (r: T)
        ensures
            r == self.spec_inner(),
    {
        self.data
    }

    /// Convert into a response of the given type.
    pub fn into_response<U: FromData<T>>(self) -> (r: Result<U, RestError>)
        ensures
            r == U::spec_from_data(self.spec_inner()),
    {
        U::from_data(self.into_inner())
    }
}

impl RestResponse<serde_json::Value> {
    /// Classify a response from its numeric status and decoded body.
    pub fn from_parts(status: u16, value: Result<serde_json::Value, RestError>) -> (r: Result<
        RestResponse<serde_json::Value>,
        RestError,
    >)
        ensures
            status == 429 ==> (r matches Err(RestError::Exchange(ExchangeError::RateLimited(m)))
                && m@ == "too many requests"@),
            status == 418 ==> (r matches Err(RestError::Exchange(ExchangeError::RateLimited(m)))
                && m@ == "I'm a teapot"@),
            status == 503 ==> (r matches Err(
                RestError::Exchange(ExchangeError::Unavailable(u)),
            ) && u@ == match value {
                Ok(v) => spec_json_text(v),
                Err(RestError::Json(m)) => "failed to read msg: "@ + m@,
                Err(RestError::Exchange(inner)) => "failed to read msg: "@ + spec_kind_name(
                    inner,
                ),
            }),
            !(status == 429 || status == 418 || status == 503) ==> match value {
                Ok(v) => r matches Ok(resp) && resp.spec_inner() == v,
                Err(e) => r == Err::<RestResponse<serde_json::Value>, RestError>(e),
            },
    {
        if status == 429 {
            Err(RestError::Exchange(ExchangeError::RateLimited("too many requests".to_owned())))
        } else if status == 418 {
            Err(RestError::Exchange(ExchangeError::RateLimited("I'm a teapot".to_owned())))
        } else if status == 503 {
            let msg: String = match value {
                Ok(v) => json_render(&v),
                Err(RestError::Json(m)) => {
                    let mut out: String = String::from_str("failed to read msg: ");
                    out.append(m.as_str());
                    proof {
                        assert(out@ =~= "failed to read msg: "@ + m@);
                    }
                    out
                },
                Err(RestError::Exchange(inner)) => {
                    let mut out: String = String::from_str("failed to read msg: ");
                    out.append(inner.kind_name());
                    proof {
                        assert(out@ =~= "failed to read msg: "@ + spec_kind_name(inner));
                    }
                    out
                },
            };
            Err(RestError::Exchange(ExchangeError::Unavailable(msg)))
        } else {
            match value {
                Ok(v) => Ok(RestResponse { data: v }),
                Err(e) => Err(e),
            }
        }
    }

    /// Classify a raw transport response: read the numeric status, decode the
    /// body, and hand both to [`RestResponse::from_parts`]. The throttling
    /// statuses are refused with their fixed messages before the body is even
    /// trusted; the outage status reports the body; any other status stands
    /// or falls with the body's decoding alone.
    pub fn from_http(status: &http::StatusCode, body: &[u8]) -> (r: Result<
        RestResponse<serde_json::Value>,
        RestError,
    >)
        ensures
            spec_status_u16(*status) == 429 ==> (r matches Err(
                RestError::Exchange(ExchangeError::RateLimited(m)),
            ) && m@ == "too many requests"@),
            spec_status_u16(*status) == 418 ==> (r matches Err(
                RestError::Exchange(ExchangeError::RateLimited(m)),
            ) && m@ == "I'm a teapot"@),
            spec_status_u16(*status) == 503 ==> (r matches Err(
                RestError::Exchange(ExchangeError::Unavailable(u)),
            ) && (spec_json_doc(body@) matches Some(v) ==> u@ == spec_json_text(v))),
            !(spec_status_u16(*status) == 429 || spec_status_u16(*status) == 418
                || spec_status_u16(*status) == 503) ==> match spec_json_doc(body@) {
                Some(v) => r matches Ok(resp) && resp.spec_inner() == v,
                None => r matches Err(RestError::Json(_)),
            },
    {
        let code = status_as_u16(status);
        let value = decode_body(body);
        RestResponse::from_parts(code, value)
    }
}

/// Decode a response body as one JSON document, mapping a decoder failure
/// into the transport error vocabulary: succeeds with exactly the decoded
/// document when the bytes are valid JSON, and fails as a decode error when
/// they are not.
pub fn decode_body(body: &[u8]) -> (r: Result<serde_json::Value, RestError>)
    ensures
        r matches Ok(v) ==> spec_json_doc(body@) == Some(v),
        r matches Err(e) ==> (e is Json && spec_json_doc(body@) is None),
{
    match json_from_slice(body) {
        Ok(v) => Ok(v),
        Err(e) => Err(RestError::Json(json_error_message(&e))),
    }
}

} // verus!
