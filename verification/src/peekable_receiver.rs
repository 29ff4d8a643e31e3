//! The lookahead receiver: a thin wrapper giving at-most-one-item lookahead
//! on a channel's receiving side without discarding anything.
//!
//! `peek` pulls at most one item ahead of consumption and caches it; a second
//! `peek` before the cache is taken returns the identical cached item and
//! touches the source not at all. In the single-owner model, suspension
//! becomes the [`Peeked::Pending`] outcome: the caller polls again once the
//! source may have something.

use vstd::prelude::*;
use crate::channel::Channel;
use crate::channel::ChannelModel;
use crate::channel::TryRecvError;

verus! {

/// The outcome of one `peek` poll: an item is cached and viewable, or nothing
/// is there yet but the source is still open, or the source is exhausted —
/// closed and drained — and will stay so.
#[derive(Clone, Copy, PartialEq, Eq, Structural, Debug)]
pub enum Peeked {
    Ready,
    Pending,
    Closed,
}

/// A receiver with one lookahead slot: items flow out of `source` into the
/// slot one at a time, and out of the slot to the consumer, order untouched.
pub struct PeekableReceiver<T> {
    temp: Option<T>,
    receiver: Channel<T>,
}

/// What one `peek` does to the pair (lookahead slot, source): nothing when an
/// item is already cached or none is available; otherwise the head of the
/// source moves into the slot.
pub open spec fn peek_model<T>(cached: Option<T>, src: ChannelModel<T>) -> (Option<T>, ChannelModel<T>) {
    if cached is Some || src.items.len() == 0 {
        (cached, src)
    } else {
        (Some(src.items[0]), ChannelModel { items: src.items.drop_first(), closed: src.closed })
    }
}

impl<T> PeekableReceiver<T> {
    /// The item pulled ahead of consumption, if any.
    pub closed spec fn cached(self) -> Option<T> {
        self.temp
    }

    /// The state of the underlying source.
    pub closed spec fn source(self) -> ChannelModel<T> {
        self.receiver.model()
    }

    /// Everything the consumer has not yet taken, in the order it will be
    /// delivered: the cached item, if any, then the source's queue.
    pub open spec fn pending_items(self) -> Seq<T> {
        match self.cached() {
            Some(item) => seq![item] + self.source().items,
            None => self.source().items,
        }
    }

    /// Wrap a receiving endpoint; the lookahead slot starts empty.
    pub fn new(receiver: Channel<T>) -> (r: Self)
        ensures
            r.cached() is None,
            r.source() == receiver.model(),
    {
        PeekableReceiver { temp: None, receiver }
    }

    /// Take the next item without blocking: the cached one when present — the
    /// source is not queried — otherwise one non-blocking pull from the
    /// source. Delivery order is the order of [`Self::pending_items`].
    pub fn try_recv(&mut self) -> (r: Result<T, TryRecvError>)
        ensures
            final(self).cached() is None,
            old(self).pending_items().len() > 0 ==> r == Ok::<T, TryRecvError>(
                old(self).pending_items()[0],
            ) && final(self).pending_items() == old(self).pending_items().drop_first(),
            old(self).cached() is Some ==> r == Ok::<T, TryRecvError>(old(self).cached()->0)
                && final(self).source() == old(self).source(),
            old(self).cached() is None && old(self).source().items.len() > 0 ==> r == Ok::<
                T,
                TryRecvError,
            >(old(self).source().items[0]) && final(self).source() == (ChannelModel {
                items: old(self).source().items.drop_first(),
                closed: old(self).source().closed,
            }),
            old(self).cached() is None && old(self).source().items.len() == 0 ==> final(self).source()
                == old(self).source() && r == Err::<T, TryRecvError>(
                if old(self).source().closed { TryRecvError::Closed } else { TryRecvError::Empty },
            ),
    {
        if self.temp.is_some() {
            let item = self.temp.take();
            item.ok_or(TryRecvError::Empty)
        } else {
            self.receiver.try_recv()
        }
    }

    /// Pull at most one item ahead and cache it. With an item already cached
    /// this consumes nothing upstream and changes nothing — the identical
    /// item stays viewable. With an empty slot it makes one non-blocking pull
    /// from the source; `Pending` stands where an asynchronous caller would
    /// suspend, and `Closed` reports exhaustion, which from then on is the
    /// only possible outcome.
    pub fn peek(&mut self) -> (r: Peeked)
        ensures
            (final(self).cached(), final(self).source()) == peek_model(
                old(self).cached(),
                old(self).source(),
            ),
            r == Peeked::Ready <==> final(self).cached() is Some,
            r == Peeked::Closed <==> (final(self).cached() is None && old(self).source().closed),
            old(self).cached() is Some ==> *final(self) == *old(self) && r == Peeked::Ready,
    {
        if self.temp.is_some() {
            return Peeked::Ready;
        }
        match self.receiver.try_recv() {
            Ok(item) => {
                self.temp = Some(item);
                Peeked::Ready
            },
            Err(TryRecvError::Empty) => Peeked::Pending,
            Err(TryRecvError::Closed) => Peeked::Closed,
        }
    }

    /// A borrowed view of the cached item, without removing it.
    pub fn peeked(&self) -> (r: Option<&T>)
        ensures
            r is Some <==> self.cached() is Some,
            r is Some ==> *r->0 == self.cached()->0,
    {
        self.temp.as_ref()
    }

    /// Close the underlying source: later sends into it are rejected, and
    /// once the queue and the lookahead slot are drained, `peek` reports
    /// exhaustion forever.
    pub fn close(&mut self)
        ensures
            final(self).cached() == old(self).cached(),
            final(self).source() == (ChannelModel {
                items: old(self).source().items,
                closed: true,
            }),
    {
        self.receiver.close()
    }
}

/// Peeking is idempotent: a second `peek` before an intervening take finds
/// the cache full, consumes nothing further upstream, and leaves the
/// identical cached item in place. So `peek` never pulls more than one item
/// ahead of consumption, however often it is called.
pub proof fn lemma_peek_idempotent<T>(cached: Option<T>, src: ChannelModel<T>)
    ensures
        peek_model(peek_model(cached, src).0, peek_model(cached, src).1) == peek_model(cached, src),
{
}

} // verus!
