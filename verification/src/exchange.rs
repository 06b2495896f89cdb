//! The exchange façade: typed subscription operations over one multiplexed
//! channel. Every operation follows one pattern — build the canonical
//! request, convert it through the adaptation protocol, route it through the
//! multiplexer (which demands readiness), and translate the response back —
//! and every failure reaching a caller is a canonical error.

use vstd::prelude::*;

use crate::binance::response::{ExchangeInfo, FromData, RestError};
use crate::binance::service::{
    spec_key_of_response, Binance, Dispatch, MuxError, MuxKey, PollOutcome, Request, Response,
};
use crate::emulate::TradeStream;
use crate::error::ExchangeError;
use crate::stream::SubStream;
use crate::types::{
    Adaptor, InstrumentMeta, SubscribeInstruments, SubscribeTickers, SubscribeTrades, Ticker,
};

verus! {

/// The façade over one multiplexed channel. It owns the channel exclusively,
/// retains no per-call state of its own, and leaves all caching of readiness
/// to the multiplexer underneath.
pub struct Exchange {
    /// The multiplexed channel every operation goes through.
    pub channel: Binance,
}

impl Exchange {
    /// A façade over the given channel.
    pub fn new(channel: Binance) -> (r: Self)
        ensures
            r.channel == channel,
    {
        Exchange { channel }
    }

    /// Advance one entry's readiness from its handler's report, surfacing a
    /// reported failure as a canonical error tagged with the entry's key.
    pub fn poll_ready(&mut self, key: MuxKey, outcome: PollOutcome) -> (r: Result<
        bool,
        ExchangeError,
    >)
        ensures
            final(self).channel.spec_entry(key.spec_other()) == old(self).channel.spec_entry(
                key.spec_other(),
            ),
            final(self).channel.spec_entry(key).accepts == old(self).channel.spec_entry(
                key,
            ).accepts,
            final(self).channel.spec_state(key) == crate::binance::service::spec_poll_next(
                old(self).channel.spec_state(key),
                outcome,
            ),
            r matches Ok(b) ==> b == (final(self).channel.spec_state(key) is Ready),
            r is Err <==> (!(old(self).channel.spec_state(key) is Ready) && outcome is Failed),
            r is Err ==> r matches Err(ExchangeError::Unknown(_)),
    {
        match self.channel.poll_pending(key, outcome) {
            Ok(b) => Ok(b),
            Err(e) => Err(e.into_exchange_error()),
        }
    }

    /// Subscribe to the tickers of one instrument: build the canonical
    /// request, convert it to the union the channel accepts, and route it.
    /// An instrument that resolves to nothing is refused at once, before any
    /// transport is touched; an unready entry refuses fast with the channel
    /// untouched; a ready entry yields the routed streaming invocation.
    pub fn subscribe_tickers(&mut self, inst: &str) -> (r: Result<Dispatch, ExchangeError>)
        ensures
            inst@.len() == 0 ==> (r == Err::<Dispatch, ExchangeError>(
                ExchangeError::InstrumentNotFound,
            ) && *final(self) == *old(self)),
            inst@.len() > 0 ==> {
                &&& final(self).channel.spec_entry(MuxKey::Http) == old(self).channel.spec_entry(
                    MuxKey::Http,
                )
                &&& !(old(self).channel.spec_state(MuxKey::Ws) is Ready) ==> (r matches Err(
                    ExchangeError::Unknown(_),
                ) && *final(self) == *old(self))
                &&& (old(self).channel.spec_state(MuxKey::Ws) is Ready) ==> {
                    &&& final(self).channel.spec_state(MuxKey::Ws) is Pending
                    &&& old(self).channel.spec_entry(MuxKey::Ws).accepts != MuxKey::Ws ==> r
                        == Err::<Dispatch, ExchangeError>(ExchangeError::WrongResponseType)
                    &&& old(self).channel.spec_entry(MuxKey::Ws).accepts == MuxKey::Ws ==> (
                    r matches Ok(Dispatch::Ws(w)) && w.channel@ == "tickers"@ && w.inst_id@
                        == inst@)
                }
            },
    {
        let request = SubscribeTickers::new(inst);
        match Request::from_subscribe_tickers(request) {
            Ok(req) => match self.channel.call(req) {
                Ok(d) => Ok(d),
                Err(e) => Err(e.into_exchange_error()),
            },
            Err(e) => Err(e.into_exchange_error()),
        }
    }

    /// Accept the transport's answer to a tickers subscription: the response
    /// must be the streaming variant, anything else is a routing bug refused
    /// as such, never a silently wrong value.
    pub fn accept_tickers_response(&self, resp: Response) -> (r: Result<
        SubStream<Ticker>,
        ExchangeError,
    >)
        ensures
            resp matches Response::Ws(s) ==> r == Ok::<SubStream<Ticker>, ExchangeError>(s),
            spec_key_of_response(resp) != MuxKey::Ws ==> r == Err::<
                SubStream<Ticker>,
                ExchangeError,
            >(ExchangeError::WrongResponseType),
    {
        match Binance::check_response(MuxKey::Ws, resp) {
            Ok(Response::Ws(s)) => Ok(s),
            Ok(Response::Http(_)) => Err(ExchangeError::WrongResponseType),
            Err(e) => Err(e.into_exchange_error()),
        }
    }

    /// Subscribe to the trades of one instrument on a channel that only has
    /// a ticker capability: the trades request is adapted into a tickers
    /// request — same instrument — and routed exactly as one.
    pub fn subscribe_trades(&mut self, inst: &str) -> (r: Result<Dispatch, ExchangeError>)
        ensures
            inst@.len() == 0 ==> (r == Err::<Dispatch, ExchangeError>(
                ExchangeError::InstrumentNotFound,
            ) && *final(self) == *old(self)),
            inst@.len() > 0 ==> {
                &&& final(self).channel.spec_entry(MuxKey::Http) == old(self).channel.spec_entry(
                    MuxKey::Http,
                )
                &&& !(old(self).channel.spec_state(MuxKey::Ws) is Ready) ==> (r matches Err(
                    ExchangeError::Unknown(_),
                ) && *final(self) == *old(self))
                &&& (old(self).channel.spec_state(MuxKey::Ws) is Ready) ==> {
                    &&& final(self).channel.spec_state(MuxKey::Ws) is Pending
                    &&& old(self).channel.spec_entry(MuxKey::Ws).accepts != MuxKey::Ws ==> r
                        == Err::<Dispatch, ExchangeError>(ExchangeError::WrongResponseType)
                    &&& old(self).channel.spec_entry(MuxKey::Ws).accepts == MuxKey::Ws ==> (
                    r matches Ok(Dispatch::Ws(w)) && w.channel@ == "tickers"@ && w.inst_id@
                        == inst@)
                }
            },
    {
        let request = SubscribeTrades::new(inst);
        match SubscribeTickers::from_request(request) {
            Ok(native) => match Request::from_subscribe_tickers(native) {
                Ok(req) => match self.channel.call(req) {
                    Ok(d) => Ok(d),
                    Err(e) => Err(e.into_exchange_error()),
                },
                Err(e) => Err(e.into_exchange_error()),
            },
            Err(e) => Err(e),
        }
    }

    /// Accept the transport's answer to a trades subscription: the native
    /// ticker stream, adapted lazily into the trade stream — one native
    /// subscription feeding the emulated sequence.
    pub fn accept_trades_response(&self, resp: Response) -> (r: Result<TradeStream, ExchangeError>)
        ensures
            resp matches Response::Ws(s) ==> (r matches Ok(t) && t.inner == s),
            spec_key_of_response(resp) != MuxKey::Ws ==> r == Err::<TradeStream, ExchangeError>(
                ExchangeError::WrongResponseType,
            ),
    {
        match self.accept_tickers_response(resp) {
            Ok(native) => SubscribeTickers::into_response(native),
            Err(e) => Err(e),
        }
    }

    /// Subscribe to the instrument listing under one tag, served by the REST
    /// entry. Any tag is a valid request; readiness is still demanded.
    pub fn subscribe_instruments(&mut self, tag: &str) -> (r: Result<Dispatch, ExchangeError>)
        ensures
            final(self).channel.spec_entry(MuxKey::Ws) == old(self).channel.spec_entry(MuxKey::Ws),
            !(old(self).channel.spec_state(MuxKey::Http) is Ready) ==> (r matches Err(
                ExchangeError::Unknown(_),
            ) && *final(self) == *old(self)),
            (old(self).channel.spec_state(MuxKey::Http) is Ready) ==> {
                &&& final(self).channel.spec_state(MuxKey::Http) is Pending
                &&& old(self).channel.spec_entry(MuxKey::Http).accepts != MuxKey::Http ==> r
                    == Err::<Dispatch, ExchangeError>(ExchangeError::WrongResponseType)
                &&& old(self).channel.spec_entry(MuxKey::Http).accepts == MuxKey::Http ==> (
                r matches Ok(Dispatch::Http(h)) && h.endpoint@ == "exchangeInfo"@ && h.tag@
                    == tag@)
            },
    {
        let request = SubscribeInstruments::new(tag);
        let req = Request::from_subscribe_instruments(request);
        match self.channel.call(req) {
            Ok(d) => Ok(d),
            Err(e) => Err(e.into_exchange_error()),
        }
    }

    /// Accept the transport's answer to an instrument-listing subscription:
    /// the REST payload is converted into exchange info, and its listing
    /// becomes the pending items of a subscribable sequence, in order.
    pub fn accept_instruments_response(&self, resp: Response) -> (r: Result<
        SubStream<InstrumentMeta>,
        ExchangeError,
    >)
        ensures
            spec_key_of_response(resp) != MuxKey::Http ==> r == Err::<
                SubStream<InstrumentMeta>,
                ExchangeError,
            >(ExchangeError::WrongResponseType),
            resp matches Response::Http(rest) ==> match ExchangeInfo::spec_from_data(
                rest.spec_inner(),
            ) {
                Ok(info) => r matches Ok(s) && s.is_open() && s.pending()
                    == info.symbols@.map_values(
                    |m: InstrumentMeta| Ok::<InstrumentMeta, ExchangeError>(m),
                ),
                Err(RestError::Exchange(e)) => r == Err::<SubStream<InstrumentMeta>, ExchangeError>(
                    e,
                ),
                Err(RestError::Json(m)) => r == Err::<SubStream<InstrumentMeta>, ExchangeError>(
                    ExchangeError::Unknown(m),
                ),
            },
    {
        match Binance::check_response(MuxKey::Http, resp) {
            Ok(Response::Http(rest)) => {
                let converted: Result<ExchangeInfo, RestError> = rest.into_response();
                match converted {
                    Ok(info) => {
                        let mut items: Vec<Result<InstrumentMeta, ExchangeError>> = Vec::new();
                        let mut rest_symbols = info.symbols;
                        let ghost all = rest_symbols@;
                        let n = rest_symbols.len();
                        let mut i: usize = 0;
                        while i < n
                            invariant
                                0 <= i <= n,
                                n == all.len(),
                                rest_symbols@ == all.skip(i as int),
                                items@ == all.take(i as int).map_values(
                                    |m: InstrumentMeta| Ok::<InstrumentMeta, ExchangeError>(m),
                                ),
                            decreases n - i,
                        {
                            let item = rest_symbols.remove(0);
                            items.push(Ok(item));
                            proof {
                                assert(rest_symbols@ =~= all.skip(i + 1 as int));
                                assert(all.take(i + 1 as int).drop_last() =~= all.take(i as int));
                                assert(items@ =~= all.take(i + 1 as int).map_values(
                                    |m: InstrumentMeta| Ok::<InstrumentMeta, ExchangeError>(m),
                                ));
                            }
                            i = i + 1;
                        }
                        proof {
                            assert(all.take(n as int) =~= all);
                        }
                        Ok(SubStream::with_items(items))
                    },
                    Err(e) => Err(e.into_exchange_error()),
                }
            },
            Ok(Response::Ws(_)) => Err(ExchangeError::WrongResponseType),
            Err(e) => Err(e.into_exchange_error()),
        }
    }
}

} // verus!
