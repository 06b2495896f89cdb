//! The keyed multiplexer: one handler per transport key, each readying
//! independently. A request is routed by its union variant's key; invoking a
//! key that is not ready fails fast without touching any other key, and a
//! handler handed the wrong variant refuses it rather than answer wrongly.

use vstd::prelude::*;

use vstd::string::StringExecFns;

use crate::binance::response::{Data, RestResponse};
use crate::error::ExchangeError;
use crate::stream::SubStream;
use crate::types::{SubscribeInstruments, SubscribeTickers, Ticker};

verus! {

/// A multiplexer key: which transport a request belongs to.
#[derive(Debug, Clone, Copy, PartialEq, Eq, Structural)]
pub enum MuxKey {
    /// The REST transport.
    Http,
    /// The streaming transport.
    Ws,
}

/// The characters a key is named by.
pub open spec fn spec_key_str(k: MuxKey) -> Seq<char> {
    match k {
        MuxKey::Http => "http"@,
        MuxKey::Ws => "ws"@,
    }
}

impl MuxKey {
    /// The key's stable name.
    pub fn as_str(&self) -> (r: &'static str)
        ensures
            r@ == spec_key_str(*self),
    {
        match self {
            MuxKey::Http => "http",
            MuxKey::Ws => "ws",
        }
    }

    /// The other transport's key.
    pub open spec fn spec_other(self) -> MuxKey {
        match self {
            MuxKey::Http => MuxKey::Ws,
            MuxKey::Ws => MuxKey::Http,
        }
    }
}

/// A REST request to one endpoint.
#[derive(Debug, Clone)]
pub struct HttpRequest {
    /// The endpoint called.
    pub endpoint: String,
    /// The listing tag handed to the endpoint.
    pub tag: String,
}

/// A streaming subscription request to one channel on one instrument.
#[derive(Debug, Clone)]
pub struct WsRequest {
    /// The channel subscribed to.
    pub channel: String,
    /// The instrument.
    pub inst_id: String,
}

/// The request union over the two transports, discriminated by key.
#[derive(Debug)]
pub enum Request {
    /// A REST request.
    Http(HttpRequest),
    /// A streaming request.
    Ws(WsRequest),
}

/// The response union over the two transports.
#[derive(Debug)]
pub enum Response {
    /// A REST response.
    Http(RestResponse<Data>),
    /// A streaming response: the live subscription.
    Ws(SubStream<Ticker>),
}

/// The key a request is routed by: its union variant.
pub open spec fn spec_key_of(req: Request) -> MuxKey {
    match req {
        Request::Http(_) => MuxKey::Http,
        Request::Ws(_) => MuxKey::Ws,
    }
}

/// The key a response claims to come from: its union variant.
pub open spec fn spec_key_of_response(resp: Response) -> MuxKey {
    match resp {
        Response::Http(_) => MuxKey::Http,
        Response::Ws(_) => MuxKey::Ws,
    }
}

impl Request {
    /// The key this request is routed by.
    pub fn key(&self) -> (k: MuxKey)
        ensures
            k == spec_key_of(*self),
    {
        match self {
            Request::Http(_) => MuxKey::Http,
            Request::Ws(_) => MuxKey::Ws,
        }
    }

    /// Build the union request a tickers subscription becomes: a streaming
    /// request to the tickers channel. An empty instrument resolves to
    /// nothing and is refused before any transport is touched.
    pub fn from_subscribe_tickers(req: SubscribeTickers) -> (r: Result<Request, MuxError>)
        ensures
            req.instrument@.len() == 0 ==> r == Err::<Request, MuxError>(
                MuxError::Exchange(ExchangeError::InstrumentNotFound),
            ),
            req.instrument@.len() > 0 ==> (r matches Ok(Request::Ws(w)) && w.channel@
                == "tickers"@ && w.inst_id == req.instrument),
    {
        if req.instrument.as_str().unicode_len() == 0 {
            Err(MuxError::Exchange(ExchangeError::InstrumentNotFound))
        } else {
            Ok(Request::Ws(WsRequest { channel: "tickers".to_owned(), inst_id: req.instrument }))
        }
    }

    /// Build the union request an instrument-listing subscription becomes: a
    /// REST request to the exchange-information endpoint with the tag. Any
    /// tag is valid; an empty one lists everything.
    pub fn from_subscribe_instruments(req: SubscribeInstruments) -> (r: Request)
        ensures
            r matches Request::Http(h) && h.endpoint@ == "exchangeInfo"@ && h.tag == req.tag,
    {
        Request::Http(HttpRequest { endpoint: "exchangeInfo".to_owned(), tag: req.tag })
    }
}

/// A multiplexer-level failure.
#[derive(Debug, Clone)]
pub enum MuxError {
    /// A handler was handed a request variant it does not serve, or a
    /// response variant arrived that its request cannot accept.
    WrongResponseType,
    /// The entry for this key was invoked without being ready: a contract
    /// violation answered fast, deterministically, and without I/O.
    NotReady(MuxKey),
    /// An unclassified failure with its message.
    Unknown(String),
    /// An error already classified into the canonical taxonomy.
    Exchange(ExchangeError),
}

impl MuxError {
    /// Map into the canonical taxonomy before crossing the façade boundary:
    /// a wrong response type keeps its kind, an unready entry surfaces as an
    /// unclassified failure naming the dead key, and everything already
    /// classified passes through untouched.
    pub fn into_exchange_error(self) -> (r: ExchangeError)
        ensures
            self is WrongResponseType ==> r is WrongResponseType,
            self matches MuxError::NotReady(k) ==> (r matches ExchangeError::Unknown(m) && m@
                == "service "@ + spec_key_str(k) + " is not ready"@),
            self matches MuxError::Unknown(m) ==> r == ExchangeError::Unknown(m),
            self matches MuxError::Exchange(e) ==> r == e,
    {
        match self {
            MuxError::WrongResponseType => ExchangeError::WrongResponseType,
            MuxError::NotReady(k) => {
                let mut msg: String = String::from_str("service ");
                msg.append(k.as_str());
                msg.append(" is not ready");
                proof {
                    assert(msg@ =~= "service "@ + spec_key_str(k) + " is not ready"@);
                }
                ExchangeError::Unknown(msg)
            },
            MuxError::Unknown(m) => ExchangeError::Unknown(m),
            MuxError::Exchange(e) => e,
        }
    }
}

/// The readiness state of one multiplexer entry.
#[derive(Debug, Clone)]
pub enum EntryState {
    /// Never polled yet.
    Idle,
    /// Polled, not ready yet.
    Pending,
    /// The handler reported ready; one invocation may be issued.
    Ready,
    /// The handler reported an unrecoverable failure, with its message.
    Failed(String),
}

/// What the handler reports when its entry is polled.
#[derive(Debug, Clone)]
pub enum PollOutcome {
    /// Still becoming ready.
    Pending,
    /// Ready for one invocation.
    Ready,
    /// Failed, with the handler's message.
    Failed(String),
}

/// One multiplexer entry: a stable key bound to one handler for the
/// multiplexer's whole lifetime, with that handler's readiness state.
#[derive(Debug, Clone)]
pub struct Entry {
    /// Which request variant the handler under this entry actually serves.
    pub accepts: MuxKey,
    /// The entry's readiness state.
    pub state: EntryState,
}

/// The next state of an entry polled with the given report: readiness is
/// kept once reached, and otherwise an entry is Ready exactly when its own
/// handler just reported so.
pub open spec fn spec_poll_next(state: EntryState, outcome: PollOutcome) -> EntryState {
    if state is Ready {
        state
    } else {
        match outcome {
            PollOutcome::Pending => EntryState::Pending,
            PollOutcome::Ready => EntryState::Ready,
            PollOutcome::Failed(m) => EntryState::Failed(m),
        }
    }
}

/// An entry becomes Ready only from its own handler's report: polling leaves
/// it Ready exactly when it already was Ready or the handler just said so.
pub proof fn lemma_ready_only_from_report(state: EntryState, outcome: PollOutcome)
    ensures
        spec_poll_next(state, outcome) is Ready <==> (state is Ready || outcome is Ready),
{
}

/// An endpoint: where the REST transport of a channel set dials.
#[derive(Debug, Clone)]
pub struct Endpoint {
    /// The host dialed.
    pub host: String,
}

impl Endpoint {
    /// The USD-margin futures endpoint.
    pub fn usd_margin_futures() -> (r: Endpoint)
        ensures
            r.host@ == "https://fapi.binance.com"@,
    {
        Endpoint { host: "https://fapi.binance.com".to_owned() }
    }
}

/// Binance: two transports behind one handler interface, multiplexed by key.
#[derive(Debug)]
pub struct Binance {
    /// The entry under the REST key.
    pub http: Entry,
    /// The entry under the streaming key.
    pub ws: Entry,
}

/// The routed invocation a successful dispatch hands to the transport layer.
#[derive(Debug)]
pub enum Dispatch {
    /// Send this request on the REST transport.
    Http(HttpRequest),
    /// Send this request on the streaming transport.
    Ws(WsRequest),
}

impl Binance {
    /// Usd-margin futures endpoint.
    pub fn usd_margin_futures() -> (r: Endpoint)
        ensures
            r.host@ == "https://fapi.binance.com"@,
    {
        Endpoint::usd_margin_futures()
    }

    /// The entry under the given key.
    pub open spec fn spec_entry(self, k: MuxKey) -> Entry {
        match k {
            MuxKey::Http => self.http,
            MuxKey::Ws => self.ws,
        }
    }

    /// The readiness state under the given key.
    pub open spec fn spec_state(self, k: MuxKey) -> EntryState {
        self.spec_entry(k).state
    }

    /// A correctly wired multiplexer: each key holds a handler serving that
    /// key's variant, and nothing has been polled yet.
    pub fn new() -> (r: Self)
        ensures
            r.http.accepts == MuxKey::Http,
            r.ws.accepts == MuxKey::Ws,
            r.http.state is Idle,
            r.ws.state is Idle,
    {
        Binance {
            http: Entry { accepts: MuxKey::Http, state: EntryState::Idle },
            ws: Entry { accepts: MuxKey::Ws, state: EntryState::Idle },
        }
    }

    /// A multiplexer with explicitly chosen handler capabilities under each
    /// key — including miswired ones, whose dispatch must then fail loudly.
    pub fn with_handlers(http_accepts: MuxKey, ws_accepts: MuxKey) -> (r: Self)
        ensures
            r.http.accepts == http_accepts,
            r.ws.accepts == ws_accepts,
            r.http.state is Idle,
            r.ws.state is Idle,
    {
        Binance {
            http: Entry { accepts: http_accepts, state: EntryState::Idle },
            ws: Entry { accepts: ws_accepts, state: EntryState::Idle },
        }
    }

    /// Advance one entry's readiness from its own handler's report. The other
    /// entry is untouched — each key's readiness is independent — and the
    /// entry becomes Ready only when its handler reports so. A reported
    /// failure is recorded against the entry and surfaced, tagged with the
    /// key; readiness already reached is kept untouched (polling is
    /// idempotent once ready). Returns whether the entry is now ready.
    pub fn poll_pending(&mut self, key: MuxKey, outcome: PollOutcome) -> (r: Result<bool, MuxError>)
        ensures
            final(self).spec_entry(key.spec_other()) == old(self).spec_entry(key.spec_other()),
            final(self).spec_entry(key).accepts == old(self).spec_entry(key).accepts,
            final(self).spec_state(key) == spec_poll_next(old(self).spec_state(key), outcome),
            r matches Ok(b) ==> b == (final(self).spec_state(key) is Ready),
            r is Err <==> (!(old(self).spec_state(key) is Ready) && outcome is Failed),
            r matches Err(MuxError::Unknown(m)) ==> (outcome matches PollOutcome::Failed(fm) && m@
                == "poll "@ + spec_key_str(key) + " ready error: "@ + fm@),
            r is Err ==> r matches Err(MuxError::Unknown(_)),
    {
        let already_ready = match key {
            MuxKey::Http => matches!(self.http.state, EntryState::Ready),
            MuxKey::Ws => matches!(self.ws.state, EntryState::Ready),
        };
        if already_ready {
            return Ok(true);
        }
        match outcome {
            PollOutcome::Pending => {
                match key {
                    MuxKey::Http => self.http.state = EntryState::Pending,
                    MuxKey::Ws => self.ws.state = EntryState::Pending,
                }
                Ok(false)
            },
            PollOutcome::Ready => {
                match key {
                    MuxKey::Http => self.http.state = EntryState::Ready,
                    MuxKey::Ws => self.ws.state = EntryState::Ready,
                }
                Ok(true)
            },
            PollOutcome::Failed(m) => {
                let mut msg: String = String::from_str("poll ");
                msg.append(key.as_str());
                msg.append(" ready error: ");
                msg.append(m.as_str());
                proof {
                    assert(msg@ =~= "poll "@ + spec_key_str(key) + " ready error: "@ + m@);
                }
                match key {
                    MuxKey::Http => self.http.state = EntryState::Failed(m),
                    MuxKey::Ws => self.ws.state = EntryState::Failed(m),
                }
                Err(MuxError::Unknown(msg))
            },
        }
    }

    /// Route a request to the entry its key names and invoke that entry's
    /// handler. An entry that is not Ready refuses fast, deterministically,
    /// with the dead key's name and with nothing else touched — no transport
    /// is reached and the other key is unaffected. A ready entry spends its
    /// readiness (it must be polled again before the next call); its handler
    /// then either accepts the variant and yields the routed invocation, or
    /// refuses a variant it does not serve.
    pub fn call(&mut self, req: Request) -> (r: Result<Dispatch, MuxError>)
        ensures
            ({
                let key = spec_key_of(req);
                &&& final(self).spec_entry(key.spec_other()) == old(self).spec_entry(
                    key.spec_other(),
                )
                &&& final(self).spec_entry(key).accepts == old(self).spec_entry(key).accepts
                &&& !(old(self).spec_state(key) is Ready) ==> (r == Err::<Dispatch, MuxError>(
                    MuxError::NotReady(key),
                ) && *final(self) == *old(self))
                &&& (old(self).spec_state(key) is Ready) ==> {
                    &&& final(self).spec_state(key) is Pending
                    &&& old(self).spec_entry(key).accepts != key ==> r == Err::<Dispatch, MuxError>(
                        MuxError::WrongResponseType,
                    )
                    &&& old(self).spec_entry(key).accepts == key ==> match req {
                        Request::Http(h) => r == Ok::<Dispatch, MuxError>(Dispatch::Http(h)),
                        Request::Ws(w) => r == Ok::<Dispatch, MuxError>(Dispatch::Ws(w)),
                    }
                }
            }),
    {
        let key = req.key();
        let ready = match key {
            MuxKey::Http => matches!(self.http.state, EntryState::Ready),
            MuxKey::Ws => matches!(self.ws.state, EntryState::Ready),
        };
        if !ready {
            return Err(MuxError::NotReady(key));
        }
        let accepts = match key {
            MuxKey::Http => {
                self.http.state = EntryState::Pending;
                self.http.accepts
            },
            MuxKey::Ws => {
                self.ws.state = EntryState::Pending;
                self.ws.accepts
            },
        };
        match accepts {
            MuxKey::Http => match Http::call(req) {
                Ok(h) => Ok(Dispatch::Http(h)),
                Err(e) => Err(e),
            },
            MuxKey::Ws => match Ws::call(req) {
                Ok(w) => Ok(Dispatch::Ws(w)),
                Err(e) => Err(e),
            },
        }
    }

    /// Check that a response's variant answers the key it was requested
    /// under: a mismatched variant is refused as a routing bug, never handed
    /// on as a silently wrong value.
    pub fn check_response(key: MuxKey, resp: Response) -> (r: Result<Response, MuxError>)
        ensures
            spec_key_of_response(resp) == key ==> r == Ok::<Response, MuxError>(resp),
            spec_key_of_response(resp) != key ==> r == Err::<Response, MuxError>(
                MuxError::WrongResponseType,
            ),
    {
        let matches_key = match (&resp, key) {
            (Response::Http(_), MuxKey::Http) => true,
            (Response::Ws(_), MuxKey::Ws) => true,
            _ => false,
        };
        if matches_key {
            Ok(resp)
        } else {
            Err(MuxError::WrongResponseType)
        }
    }
}

/// The handler bound under the REST key: serves exactly the REST variant.
pub struct Http;

impl Http {
    /// Unwrap the variant this handler serves, refusing any other rather
    /// than answering with a mismatched response type.
    pub fn call(req: Request) -> (r: Result<HttpRequest, MuxError>)
        ensures
            match req {
                Request::Http(h) => r == Ok::<HttpRequest, MuxError>(h),
                Request::Ws(_) => r == Err::<HttpRequest, MuxError>(MuxError::WrongResponseType),
            },
    {
        match req {
            Request::Http(h) => Ok(h),
            Request::Ws(_) => Err(MuxError::WrongResponseType),
        }
    }

    /// Wrap this transport's response back into the union.
    pub fn wrap(resp: RestResponse<Data>) -> (r: Response)
        ensures
            r == Response::Http(resp),
    {
        Response::Http(resp)
    }
}

/// The handler bound under the streaming key: serves exactly the streaming
/// variant.
pub struct Ws;

impl Ws {
    /// Unwrap the variant this handler serves, refusing any other rather
    /// than answering with a mismatched response type.
    pub fn call(req: Request) -> (r: Result<WsRequest, MuxError>)
        ensures
            match req {
                Request::Ws(w) => r == Ok::<WsRequest, MuxError>(w),
                Request::Http(_) => r == Err::<WsRequest, MuxError>(MuxError::WrongResponseType),
            },
    {
        match req {
            Request::Ws(w) => Ok(w),
            Request::Http(_) => Err(MuxError::WrongResponseType),
        }
    }

    /// Wrap this transport's response back into the union.
    pub fn wrap(resp: SubStream<Ticker>) -> (r: Response)
        ensures
            r == Response::Ws(resp),
    {
        Response::Ws(resp)
    }
}

impl crate::types::Request for Request {
    type Response = Response;
}

} // verus!
