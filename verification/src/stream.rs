//! The lazy, pull-based streaming response model. A subscription yields a
//! non-restartable sequence of result-wrapped items; items preserve the
//! transport's emission order; a per-item failure fails only that item; and
//! closing the sequence is what releases the underlying resource.

use vstd::prelude::*;

use crate::error::ExchangeError;
use crate::types::{InstrumentMeta, Request, SubscribeInstruments, SubscribeTickers, Ticker};

verus! {

/// A streaming subscription over items of type `T`.
///
/// The transport side feeds items in emission order with [`SubStream::push`];
/// the consumer pulls them with [`SubStream::pull`]. While the stream is open
/// it holds its underlying connection; [`SubStream::close`] releases it, after
/// which no item is delivered and no further transport activity is accepted.
#[derive(Debug)]
pub struct SubStream<T> {
    buf: Vec<Result<T, ExchangeError>>,
    pos: usize,
    open: bool,
}

impl<T> SubStream<T> {
    /// Whether the stream still holds its underlying resource.
    pub closed spec fn is_open(self) -> bool {
        self.open
    }

    /// The items fed so far and not yet pulled, in emission order.
    pub closed spec fn pending(self) -> Seq<Result<T, ExchangeError>> {
        self.buf@.skip(self.pos as int)
    }

    /// The stream's internal cursor never runs past its buffer.
    pub closed spec fn wf(self) -> bool {
        self.pos <= self.buf@.len()
    }

    /// A fresh, open stream with nothing pending.
    pub fn new() -> (r: Self)
        ensures
            r.wf(),
            r.is_open(),
            r.pending() == Seq::<Result<T, ExchangeError>>::empty(),
    {
        let r = SubStream { buf: Vec::new(), pos: 0, open: true };
        proof {
            assert(r.pending() =~= Seq::<Result<T, ExchangeError>>::empty());
        }
        r
    }

    /// An open stream whose pending items are exactly `items`, in order.
    pub fn with_items(items: Vec<Result<T, ExchangeError>>) -> (r: Self)
        ensures
            r.wf(),
            r.is_open(),
            r.pending() == items@,
    {
        let r = SubStream { buf: items, pos: 0, open: true };
        proof {
            assert(r.pending() =~= r.buf@);
        }
        r
    }

    /// The transport feeds one item. On an open stream the item is appended
    /// after everything already pending; a closed stream accepts nothing and
    /// is left unchanged.
    pub fn push(&mut self, item: Result<T, ExchangeError>)
        requires
            old(self).wf(),
        ensures
            final(self).wf(),
            final(self).is_open() == old(self).is_open(),
            old(self).is_open() ==> final(self).pending() == old(self).pending().push(item),
            !old(self).is_open() ==> *final(self) == *old(self),
    {
        if self.open {
            self.buf.push(item);
            proof {
                assert(self.pending() =~= old(self).pending().push(item));
            }
        }
    }

    /// The consumer pulls the next item. Yields the oldest pending item on an
    /// open stream, and `None` once the stream is closed or drained.
    pub fn pull(&mut self) -> (r: Option<Result<T, ExchangeError>>)
        requires
            old(self).wf(),
        ensures
            final(self).wf(),
            final(self).is_open() == old(self).is_open(),
            old(self).is_open() && old(self).pending().len() > 0 ==> {
                &&& r == Some(old(self).pending()[0])
                &&& final(self).pending() == old(self).pending().skip(1)
            },
            !(old(self).is_open() && old(self).pending().len() > 0) ==> {
                &&& r is None
                &&& *final(self) == *old(self)
            },
    {
        if self.open && self.pos < self.buf.len() {
            let item = self.buf.remove(self.pos);
            proof {
                assert(self.pending() =~= old(self).pending().skip(1));
            }
            Some(item)
        } else {
            None
        }
    }

    /// Stop pulling: release the underlying connection. This is the sole
    /// cancellation mechanism — after it, nothing is pending, no push is
    /// accepted, and every pull yields `None`.
    pub fn close(&mut self)
        requires
            old(self).wf(),
        ensures
            final(self).wf(),
            !final(self).is_open(),
            final(self).pending() == Seq::<Result<T, ExchangeError>>::empty(),
    {
        self.open = false;
        self.buf = Vec::new();
        self.pos = 0;
        proof {
            assert(self.pending() =~= Seq::<Result<T, ExchangeError>>::empty());
        }
    }

    /// Whether the underlying handler still sees this subscription as live —
    /// that is, whether the stream would still accept transport activity.
    pub fn resource_held(&self) -> (r: bool)
        ensures
            r == self.is_open(),
    {
        self.open
    }
}

impl Request for SubscribeTickers {
    type Response = SubStream<Ticker>;
}

impl Request for SubscribeInstruments {
    type Response = SubStream<InstrumentMeta>;
}

} // verus!
