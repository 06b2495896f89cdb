//! The generic request/response type system: every request type is bound at
//! compile time to exactly one response type, and the adaptation protocol
//! lets a request type be served by a handler native to a different one.

use vstd::prelude::*;

use crate::error::ExchangeError;

verus! {

/// A plain decimal value: `mantissa * 10^(-scale)`. Numeric fields of domain
/// values use this representation so that exact arithmetic facts can be
/// stated about them.
#[derive(Debug, Clone, Copy, PartialEq, Eq, Structural)]
pub struct Decimal {
    /// The digits, as a signed integer.
    pub mantissa: i64,
    /// How many of the trailing digits of `mantissa` sit after the point.
    pub scale: u32,
}

/// A ticker item: the latest price and size seen on an instrument.
#[derive(Debug, Clone, Copy, PartialEq, Eq)]
pub struct Ticker {
    /// Event timestamp, in milliseconds.
    pub ts: i64,
    /// The last traded price.
    pub last: Decimal,
    /// The last traded size.
    pub size: Decimal,
    /// Whether the last trade was buyer-initiated, when the source carries
    /// that information.
    pub buy: Option<bool>,
}

/// A trade item.
#[derive(Debug, Clone, Copy, PartialEq, Eq)]
pub struct Trade {
    /// Event timestamp, in milliseconds.
    pub ts: i64,
    /// Trade price.
    pub price: Decimal,
    /// Trade size.
    pub size: Decimal,
    /// Whether the trade was buyer-initiated.
    pub buy: bool,
}

/// Instrument metadata.
#[derive(Debug, Clone, PartialEq, Eq)]
pub struct InstrumentMeta {
    /// The instrument's symbol.
    pub symbol: String,
    /// The price increment.
    pub tick_size: Decimal,
    /// The size increment.
    pub lot_size: Decimal,
}

/// A request to subscribe to the ticker stream of one instrument.
#[derive(Debug, Clone)]
pub struct SubscribeTickers {
    /// The instrument to subscribe to.
    pub instrument: String,
}

impl SubscribeTickers {
    /// Build the request for the given instrument.
    pub fn new(inst: &str) -> (r: Self)
        ensures
            r.instrument@ == inst@,
    {
        SubscribeTickers { instrument: inst.to_owned() }
    }
}

/// A request to subscribe to the trade stream of one instrument.
#[derive(Debug, Clone)]
pub struct SubscribeTrades {
    /// The instrument to subscribe to.
    pub instrument: String,
}

impl SubscribeTrades {
    /// Build the request for the given instrument.
    pub fn new(inst: &str) -> (r: Self)
        ensures
            r.instrument@ == inst@,
    {
        SubscribeTrades { instrument: inst.to_owned() }
    }
}

/// A request to subscribe to the instrument listing carrying the given tag.
#[derive(Debug, Clone)]
pub struct SubscribeInstruments {
    /// The listing tag.
    pub tag: String,
}

impl SubscribeInstruments {
    /// Build the request for the given tag.
    pub fn new(tag: &str) -> (r: Self)
        ensures
            r.tag@ == tag@,
    {
        SubscribeInstruments { tag: tag.to_owned() }
    }
}

/// Character-for-character string equality, usable in contracts.
pub fn str_eq(a: &str, b: &str) -> (r: bool)
    ensures
        r == (a@ == b@),
{
    let a_owned: String = a.to_owned();
    let b_owned: String = b.to_owned();
    a_owned == b_owned
}

/// Request and Response binding: a request type is paired with exactly one
/// response type, fixed at compile time.
pub trait Request {
    /// Response type.
    type Response;
}

/// An adaptor for requests: `Self` is the request type a handler natively
/// accepts, and `R` is the request type being served through it. Conversion
/// is total in the error channel — it either produces a valid translated
/// value or a canonical error — and pure: the result is a function of the
/// converted value alone.
pub trait Adaptor<R: Request>: Request + Sized {
    /// What converting the request returns, as a mathematical function.
    spec fn spec_from_request(req: R) -> Result<Self, ExchangeError>;

    /// What converting the response back returns, as a mathematical function.
    spec fn spec_into_response(resp: Self::Response) -> Result<R::Response, ExchangeError>;

    /// Convert from request.
    fn from_request(req: R) -> (r: Result<Self, ExchangeError>)
        ensures
            r == Self::spec_from_request(req),
    ;

    /// Convert into response.
    fn into_response(resp: Self::Response) -> (r: Result<R::Response, ExchangeError>)
        ensures
            r == Self::spec_into_response(resp),
    ;
}

} // verus!
