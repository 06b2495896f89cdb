//! The OKX streaming-event vocabulary: control responses carrying a
//! code/message pair, and change events carrying a batch of raw JSON items.
//! Turning a change event into ticker items keeps one result per raw item —
//! a malformed item fails alone and never takes the batch with it.

use vstd::prelude::*;

use vstd::string::{StringExecFns, StrSliceExecFns};

use crate::error::ExchangeError;
use crate::json::{json_as_str, json_get, spec_text_field};
use crate::num::{all_digits, dec_value, decimal_at, decimal_split_ok, parse_decimal, parse_digits};
use crate::types::Ticker;

verus! {

/// An OKX-side failure, before it is mapped into the canonical taxonomy.
#[derive(Debug, Clone)]
pub enum OkxError {
    /// An event of the wrong shape arrived where a data change was expected.
    UnexpectedDataType(String),
    /// A JSON item could not be read as the expected message.
    Json(String),
}

impl OkxError {
    /// Map into the canonical taxonomy: both kinds wrap an underlying cause
    /// that fits no specific canonical kind.
    pub fn into_exchange_error(self) -> (r: ExchangeError)
        ensures
            r == match self {
                OkxError::UnexpectedDataType(m) => ExchangeError::Unknown(m),
                OkxError::Json(m) => ExchangeError::Unknown(m),
            },
    {
        match self {
            OkxError::UnexpectedDataType(m) => ExchangeError::Unknown(m),
            OkxError::Json(m) => ExchangeError::Unknown(m),
        }
    }
}

/// Message with code.
#[derive(Debug, Clone)]
pub struct CodeMessage {
    /// Code.
    pub code: String,
    /// Message.
    pub msg: String,
}

impl CodeMessage {
    /// The pair rendered as one line, for reporting.
    pub fn to_message(&self) -> (r: String)
        ensures
            r@ == "code="@ + self.code@ + ", msg="@ + self.msg@,
    {
        let mut out: String = String::from_str("code=");
        out.append(self.code.as_str());
        out.append(", msg=");
        out.append(self.msg.as_str());
        proof {
            assert(out@ =~= "code="@ + self.code@ + ", msg="@ + self.msg@);
        }
        out
    }
}

/// Subscription arguments naming one channel on one instrument.
#[derive(Debug, Clone)]
pub struct Args {
    /// The channel name.
    pub channel: String,
    /// The instrument the channel is bound to.
    pub inst_id: String,
}

/// An OKX control response.
#[derive(Debug, Clone)]
pub enum ResponseKind {
    /// Login success response.
    Login(CodeMessage),
    /// Subscribed response.
    Subscribe {
        /// Arg.
        arg: Args,
    },
    /// Unsubscribed response.
    Unsubscribe {
        /// Arg.
        arg: Args,
    },
    /// Error response.
    Error(CodeMessage),
}

/// Action kind.
#[derive(Debug, Clone, Copy)]
pub enum Action {
    /// An update change.
    Update,
    /// A snapshot change.
    Snapshot,
}

impl Default for Action {
    /// A change event that names no action is an update.
    fn default() -> (r: Self)
        ensures
            r is Update,
    {
        Action::Update
    }
}

/// A data change event: a batch of raw items for one channel.
#[derive(Debug)]
pub struct Change {
    /// Argument.
    pub arg: Args,
    /// Action.
    pub action: Action,
    /// The raw items, in emission order.
    pub data: Vec<serde_json::Value>,
}

/// One ticker message as OKX sends it.
#[derive(Debug, Clone)]
pub struct OkxTicker {
    /// The instrument.
    pub inst_id: String,
    /// Event timestamp, in milliseconds.
    pub ts: i64,
    /// Last traded price.
    pub last: crate::types::Decimal,
    /// Last traded size.
    pub size: crate::types::Decimal,
}

/// The canonical ticker an OKX ticker message denotes: the same timestamp,
/// price and size, and no side-of-book flag, since OKX tickers carry none.
pub open spec fn spec_into_ticker(t: OkxTicker) -> Ticker {
    Ticker { ts: t.ts, last: t.last, size: t.size, buy: None }
}

impl OkxTicker {
    /// The canonical ticker this message denotes.
    pub fn into_ticker(self) -> (r: Ticker)
        ensures
            r == spec_into_ticker(self),
    {
        Ticker { ts: self.ts, last: self.last, size: self.size, buy: None }
    }
}

/// The characters of an optionally extracted field text.
pub open spec fn spec_opt_view(o: Option<String>) -> Option<Seq<char>> {
    match o {
        Some(text) => Some(text@),
        None => None,
    }
}

/// Whether the four extracted field texts assemble into a ticker message:
/// each must be present and must satisfy the verified parser for its role.
pub open spec fn spec_fields_ok(
    inst_id: Option<Seq<char>>,
    ts: Option<Seq<char>>,
    last: Option<Seq<char>>,
    size: Option<Seq<char>>,
) -> bool {
    &&& inst_id is Some
    &&& (ts matches Some(t) && t.len() > 0 && all_digits(t) && dec_value(t) <= i64::MAX)
    &&& (last matches Some(l) && (exists|i: int| decimal_split_ok(l, i)))
    &&& (size matches Some(z) && (exists|i: int| decimal_split_ok(z, i)))
}

/// Whether a ticker message carries exactly what the four field texts parse
/// to: the instrument verbatim, the timestamp as the digit run's value, and
/// the price and size as the decimals their texts denote.
pub open spec fn spec_ticker_matches(
    inst_id: Option<Seq<char>>,
    ts: Option<Seq<char>>,
    last: Option<Seq<char>>,
    size: Option<Seq<char>>,
    t: OkxTicker,
) -> bool {
    &&& inst_id == Some(t.inst_id@)
    &&& (ts matches Some(text) && t.ts == dec_value(text))
    &&& (last matches Some(text) && (exists|i: int| #[trigger] decimal_split_ok(text, i)
        && t.last == decimal_at(text, i)))
    &&& (size matches Some(text) && (exists|i: int| #[trigger] decimal_split_ok(text, i)
        && t.size == decimal_at(text, i)))
}

/// Assemble a ticker message from the four extracted field texts: succeeds
/// exactly when every field is present and parses for its role, and then
/// carries exactly the parsed values.
#[verifier::rlimit(30)]
pub fn ticker_from_fields(
    inst_id: Option<String>,
    ts: Option<String>,
    last: Option<String>,
    size: Option<String>,
) -> (r: Result<OkxTicker, OkxError>)
    ensures
        r is Ok <==> spec_fields_ok(
            spec_opt_view(inst_id),
            spec_opt_view(ts),
            spec_opt_view(last),
            spec_opt_view(size),
        ),
        r matches Ok(t) ==> spec_ticker_matches(
            spec_opt_view(inst_id),
            spec_opt_view(ts),
            spec_opt_view(last),
            spec_opt_view(size),
            t,
        ),
        r matches Err(e) ==> e is Json,
{
    let inst = match inst_id {
        Some(text) => text,
        None => {
            return Err(OkxError::Json("ticker field instId is missing".to_owned()));
        },
    };
    let ts_value = match ts {
        Some(text) => match parse_digits(text.as_str()) {
            Some(n) => n,
            None => {
                return Err(OkxError::Json("ticker field ts is not a digit run".to_owned()));
            },
        },
        None => {
            return Err(OkxError::Json("ticker field ts is missing".to_owned()));
        },
    };
    let ghost mut last_split: int = 0;
    let last_value = match last {
        Some(text) => match parse_decimal(text.as_str()) {
            Some(d) => {
                proof {
                    assert(spec_opt_view(last) == Some(text@));
                    last_split = choose|i: int|
                        #[trigger] decimal_split_ok(text@, i) && d == decimal_at(text@, i);
                    assert(spec_opt_view(last) matches Some(l) && decimal_split_ok(l, last_split)
                        && d == decimal_at(l, last_split));
                }
                d
            },
            None => {
                return Err(OkxError::Json("ticker field last is not a decimal".to_owned()));
            },
        },
        None => {
            return Err(OkxError::Json("ticker field last is missing".to_owned()));
        },
    };
    let ghost mut size_split: int = 0;
    let size_value = match size {
        Some(text) => match parse_decimal(text.as_str()) {
            Some(d) => {
                proof {
                    assert(spec_opt_view(size) == Some(text@));
                    size_split = choose|i: int|
                        #[trigger] decimal_split_ok(text@, i) && d == decimal_at(text@, i);
                    assert(spec_opt_view(size) matches Some(z) && decimal_split_ok(z, size_split)
                        && d == decimal_at(z, size_split));
                }
                d
            },
            None => {
                return Err(OkxError::Json("ticker field lastSz is not a decimal".to_owned()));
            },
        },
        None => {
            return Err(OkxError::Json("ticker field lastSz is missing".to_owned()));
        },
    };
    let result = OkxTicker { inst_id: inst, ts: ts_value, last: last_value, size: size_value };
    proof {
        assert(spec_opt_view(inst_id) == Some(result.inst_id@));
        assert(spec_opt_view(ts) matches Some(t) && t.len() > 0 && all_digits(t) && dec_value(t)
            <= i64::MAX && result.ts == dec_value(t));
        assert(spec_opt_view(last) matches Some(l) && decimal_split_ok(l, last_split)
            && result.last == decimal_at(l, last_split));
        assert(spec_opt_view(size) matches Some(z) && decimal_split_ok(z, size_split)
            && result.size == decimal_at(z, size_split));
    }
    Ok(result)
}

/// Whether the raw item carries the four fields a ticker message needs, each
/// a string whose text parses for its role.
pub open spec fn spec_item_fields_ok(v: serde_json::Value) -> bool {
    spec_fields_ok(
        spec_text_field(v, "instId"@),
        spec_text_field(v, "ts"@),
        spec_text_field(v, "last"@),
        spec_text_field(v, "lastSz"@),
    )
}

/// Whether a ticker message carries exactly what the raw item's four string
/// fields parse to.
pub open spec fn spec_item_ticker_matches(v: serde_json::Value, t: OkxTicker) -> bool {
    spec_ticker_matches(
        spec_text_field(v, "instId"@),
        spec_text_field(v, "ts"@),
        spec_text_field(v, "last"@),
        spec_text_field(v, "lastSz"@),
        t,
    )
}

/// Extract one string field of a JSON object, if it is there.
fn get_text_field(v: &serde_json::Value, key: &str) -> (r: Option<String>)
    ensures
        r matches Some(text) ==> spec_text_field(*v, key@) == Some(text@),
        r is None ==> spec_text_field(*v, key@) is None,
{
    match json_get(v, key) {
        Some(field) => json_as_str(field),
        None => None,
    }
}

/// Read one raw JSON item as a ticker message: succeeds exactly when the
/// item carries the four string fields and each parses for its role, and
/// then the message holds exactly the parsed values; any other item fails,
/// alone, as a decode failure.
pub fn ticker_from_value(v: &serde_json::Value) -> (r: Result<OkxTicker, OkxError>)
    ensures
        r is Ok <==> spec_item_fields_ok(*v),
        r matches Ok(t) ==> spec_item_ticker_matches(*v, t),
        r matches Err(e) ==> e is Json,
{
    let inst_id = get_text_field(v, "instId");
    let ts = get_text_field(v, "ts");
    let last = get_text_field(v, "last");
    let size = get_text_field(v, "lastSz");
    ticker_from_fields(inst_id, ts, last, size)
}

impl Change {
    /// Read every raw item of the batch as a ticker message: one result per
    /// item, in emission order. An item succeeds exactly when it carries the
    /// four parsing string fields, and then yields exactly their values; a
    /// malformed item fails alone, as a decode failure.
    pub fn deserialize_data(self) -> (r: Vec<Result<OkxTicker, OkxError>>)
        ensures
            r@.len() == self.data@.len(),
            forall|i: int| 0 <= i < r@.len() ==> ((#[trigger] r@[i]) is Ok <==> spec_item_fields_ok(
                self.data@[i],
            )),
            forall|i: int| 0 <= i < r@.len() ==> match #[trigger] r@[i] {
                Ok(t) => spec_item_ticker_matches(self.data@[i], t),
                Err(e) => e is Json,
            },
    {
        let mut out: Vec<Result<OkxTicker, OkxError>> = Vec::new();
        let mut i: usize = 0;
        let n = self.data.len();
        while i < n
            invariant
                0 <= i <= n,
                n == self.data@.len(),
                out@.len() == i,
                forall|j: int| 0 <= j < i ==> ((#[trigger] out@[j]) is Ok <==> spec_item_fields_ok(
                    self.data@[j],
                )),
                forall|j: int| 0 <= j < i ==> match #[trigger] out@[j] {
                    Ok(t) => spec_item_ticker_matches(self.data@[j], t),
                    Err(e) => e is Json,
                },
            decreases n - i,
        {
            out.push(ticker_from_value(&self.data[i]));
            i = i + 1;
        }
        out
    }
}

/// What the per-item step of the batch translation makes of one parsed
/// result: a message becomes its canonical ticker, a failed item stays
/// itself.
pub open spec fn spec_ticker_item(r: Result<OkxTicker, OkxError>) -> Result<Ticker, OkxError> {
    match r {
        Ok(t) => Ok(spec_into_ticker(t)),
        Err(e) => Err(e),
    }
}

/// Translate a batch of parsed ticker messages into canonical ticker items:
/// exactly one result per input, in order, each mapped by the per-item step.
pub fn tickers_from_items(items: Vec<Result<OkxTicker, OkxError>>) -> (r: Vec<
    Result<Ticker, OkxError>,
>)
    ensures
        r@ == items@.map_values(|it: Result<OkxTicker, OkxError>| spec_ticker_item(it)),
{
    let mut out: Vec<Result<Ticker, OkxError>> = Vec::new();
    let mut rest = items;
    let ghost all = rest@;
    let n = rest.len();
    let mut i: usize = 0;
    while i < n
        invariant
            0 <= i <= n,
            n == all.len(),
            rest@ == all.skip(i as int),
            out@ == all.take(i as int).map_values(
                |it: Result<OkxTicker, OkxError>| spec_ticker_item(it),
            ),
        decreases n - i,
    {
        let item = rest.remove(0);
        match item {
            Ok(t) => out.push(Ok(t.into_ticker())),
            Err(e) => out.push(Err(e)),
        }
        proof {
            assert(rest@ =~= all.skip(i + 1 as int));
            assert(all.take(i + 1 as int).drop_last() =~= all.take(i as int));
            assert(out@ =~= all.take(i + 1 as int).map_values(
                |it: Result<OkxTicker, OkxError>| spec_ticker_item(it),
            ));
        }
        i = i + 1;
    }
    proof {
        assert(all.take(n as int) =~= all);
    }
    out
}

/// An OKX streaming event.
#[derive(Debug)]
pub enum Event {
    /// Response.
    Response(ResponseKind),
    /// Change.
    Change(Change),
}

/// Turn one streaming event into canonical ticker items: a control response
/// where data was expected fails the whole call, and a change yields one
/// result per raw item, in emission order — a ticker exactly when the item
/// parses, carrying exactly the parsed values, and a lone decode failure
/// when it does not.
pub fn tickers_from_event(event: Event) -> (r: Result<Vec<Result<Ticker, OkxError>>, OkxError>)
    ensures
        event is Response ==> (r matches Err(e) && e is UnexpectedDataType),
        event matches Event::Change(c) ==> (r matches Ok(items) && items@.len() == c.data@.len()
            && (forall|i: int| 0 <= i < items@.len() ==> ((#[trigger] items@[i]) is Ok
                <==> spec_item_fields_ok(c.data@[i])))
            && (forall|i: int| 0 <= i < items@.len() ==> match #[trigger] items@[i] {
                Ok(t) => exists|m: OkxTicker| spec_item_ticker_matches(c.data@[i], m) && t
                    == spec_into_ticker(m),
                Err(e) => e is Json,
            })),
{
    match event {
        Event::Response(_) => Err(
            OkxError::UnexpectedDataType(
                "control response arrived where a data change was expected".to_owned(),
            ),
        ),
        Event::Change(change) => {
            let ghost raw = change.data@;
            let parsed = change.deserialize_data();
            let ghost parsed_view = parsed@;
            let out = tickers_from_items(parsed);
            proof {
                assert forall|i: int| 0 <= i < out@.len() implies ((#[trigger] out@[i]) is Ok
                    <==> spec_item_fields_ok(raw[i])) && match out@[i] {
                    Ok(t) => exists|m: OkxTicker| spec_item_ticker_matches(raw[i], m) && t
                        == spec_into_ticker(m),
                    Err(e) => e is Json,
                } by {
                    assert(out@[i] == spec_ticker_item(parsed_view[i]));
                    match parsed_view[i] {
                        Ok(m) => {
                            assert(spec_item_ticker_matches(raw[i], m) && out@[i] == Ok::<
                                Ticker,
                                OkxError,
                            >(spec_into_ticker(m)));
                        },
                        Err(_) => {},
                    }
                }
            }
            Ok(out)
        },
    }
}

} // verus!
