//! Capability emulation: deriving a trade stream from a ticker stream when
//! an exchange has no native trade channel. An adaptation step translates the
//! trades request into a tickers request, the native handler serves it, and a
//! per-item transform turns each ticker into a trade by a documented
//! best-effort field mapping. A single native stream feeds the emulated one.

use vstd::prelude::*;

use crate::error::ExchangeError;
use crate::stream::SubStream;
use crate::types::{Adaptor, Request, SubscribeTickers, SubscribeTrades, Ticker, Trade};

verus! {

/// The documented field mapping from a ticker to a trade: the price is the
/// ticker's last price, the size its last size, and the side-of-book flag is
/// the ticker's flag where it carries one, defaulted to a buy where it does
/// not. The default is an explicit approximation, not a semantic guarantee.
pub open spec fn spec_trade_of_ticker(t: Ticker) -> Trade {
    Trade {
        ts: t.ts,
        price: t.last,
        size: t.size,
        buy: match t.buy {
            Some(b) => b,
            None => true,
        },
    }
}

/// What the per-item transform makes of one result-wrapped native item: a
/// failed item stays failed with its error untouched.
pub open spec fn spec_trade_item(r: Result<Ticker, ExchangeError>) -> Result<
    Trade,
    ExchangeError,
> {
    match r {
        Ok(t) => Ok(spec_trade_of_ticker(t)),
        Err(e) => Err(e),
    }
}

/// Translate one ticker into a trade by the documented field mapping.
pub fn trade_of_ticker(t: Ticker) -> (r: Trade)
    ensures
        r == spec_trade_of_ticker(t),
{
    Trade {
        ts: t.ts,
        price: t.last,
        size: t.size,
        buy: match t.buy {
            Some(b) => b,
            None => true,
        },
    }
}

/// A lazy trade stream emulated over one native ticker stream. Each item is
/// translated as it is pulled, never eagerly, and the native subscription is
/// neither duplicated nor restarted: this wrapper is a view over it.
pub struct TradeStream {
    /// The single native ticker stream feeding the emulation.
    pub inner: SubStream<Ticker>,
}

impl TradeStream {
    /// Whether the underlying native subscription is still held.
    pub open spec fn is_open(self) -> bool {
        self.inner.is_open()
    }

    /// See [`SubStream::wf`].
    pub open spec fn wf(self) -> bool {
        self.inner.wf()
    }

    /// The trades this stream still owes its consumer: exactly the native
    /// pending items, each translated by the documented mapping.
    pub open spec fn pending(self) -> Seq<Result<Trade, ExchangeError>> {
        self.inner.pending().map_values(|r| spec_trade_item(r))
    }

    /// Pull the next trade: the oldest pending native item, translated.
    pub fn pull(&mut self) -> (r: Option<Result<Trade, ExchangeError>>)
        requires
            old(self).wf(),
        ensures
            final(self).wf(),
            final(self).is_open() == old(self).is_open(),
            old(self).is_open() && old(self).pending().len() > 0 ==> {
                &&& r == Some(old(self).pending()[0])
                &&& final(self).pending() == old(self).pending().skip(1)
            },
            !(old(self).is_open() && old(self).pending().len() > 0) ==> {
                &&& r is None
                &&& *final(self) == *old(self)
            },
    {
        let item = self.inner.pull();
        proof {
            if old(self).is_open() && old(self).pending().len() > 0 {
                assert(self.pending() =~= old(self).pending().skip(1));
            }
        }
        match item {
            Some(Ok(t)) => Some(Ok(trade_of_ticker(t))),
            Some(Err(e)) => Some(Err(e)),
            None => None,
        }
    }

    /// Stop pulling: releases the one native subscription underneath.
    pub fn close(&mut self)
        requires
            old(self).wf(),
        ensures
            final(self).wf(),
            !final(self).is_open(),
            final(self).pending() == Seq::<Result<Trade, ExchangeError>>::empty(),
    {
        self.inner.close();
        proof {
            assert(self.pending() =~= Seq::<Result<Trade, ExchangeError>>::empty());
        }
    }

    /// Whether the underlying handler still sees a live subscription.
    pub fn resource_held(&self) -> (r: bool)
        ensures
            r == self.is_open(),
    {
        self.inner.resource_held()
    }
}

impl Request for SubscribeTrades {
    type Response = TradeStream;
}

impl Adaptor<SubscribeTrades> for SubscribeTickers {
    open spec fn spec_from_request(req: SubscribeTrades) -> Result<Self, ExchangeError> {
        Ok(SubscribeTickers { instrument: req.instrument })
    }

    open spec fn spec_into_response(resp: SubStream<Ticker>) -> Result<TradeStream, ExchangeError> {
        Ok(TradeStream { inner: resp })
    }

    fn from_request(req: SubscribeTrades) -> (r: Result<Self, ExchangeError>) {
        Ok(SubscribeTickers { instrument: req.instrument })
    }

    fn into_response(resp: SubStream<Ticker>) -> (r: Result<TradeStream, ExchangeError>) {
        Ok(TradeStream { inner: resp })
    }
}

/// Serving a trades request through the tickers capability is equivalent to a
/// hypothetical native trades handler, modulo the documented approximation:
/// the translated request keeps the instrument unchanged, the request-side
/// conversion never fails, and the adapted response owes exactly the native
/// items, each translated by the documented field mapping — no item is
/// dropped, reordered, or silently corrupted.
pub proof fn lemma_trades_via_tickers_equivalence(
    req: SubscribeTrades,
    native: SubStream<Ticker>,
)
    ensures
        SubscribeTickers::spec_from_request(req) matches Ok(t) && t.instrument
            == req.instrument,
        SubscribeTickers::spec_into_response(native) matches Ok(s) && s.pending()
            == native.pending().map_values(|r| spec_trade_item(r)),
{
}

} // verus!
