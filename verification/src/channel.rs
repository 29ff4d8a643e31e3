//! The full-duplex channel port: the FIFO, move-semantics relay that carries
//! owned frame buffers between a blocking capture thread and the cooperative
//! scheduler.
//!
//! The verified model is single-owner: a [`Channel`] is the sender/receiver
//! endpoint pair of one direction collapsed into one value, and a
//! [`ChannelPort`] bundles the two directions of one interface. The process
//! around the library provides the actual cross-thread plumbing; every queue
//! transition it may perform is one of the methods specified here.

use vstd::prelude::*;
use vstd::seq_lib::group_seq_properties;

verus! {

/// One raw Ethernet-layer byte buffer, owned and moved, never aliased.
pub type Frame = Vec<u8>;

/// Reported by `send` once the receiving side has closed the channel: the
/// frame was not enqueued and never will be.
#[derive(Clone, Copy, PartialEq, Eq, Structural, Debug)]
pub struct ChannelClosed;

/// Why a channel port rejected a frame: the other side has closed the port,
/// or the direction's queue is at its capacity and the newest frame is
/// dropped rather than buffered without bound.
#[derive(Clone, Copy, PartialEq, Eq, Structural, Debug)]
pub enum SendError {
    Closed,
    Full,
}

/// The explicit backpressure bound of a channel port: at most this many
/// frames are queued per direction. A send at the bound is rejected — the
/// newest frame is dropped and the producer is told so — which keeps memory
/// bounded under a transmit storm.
pub const PORT_CAPACITY: usize = 64;

/// Reported by `try_recv` when no frame is ready: `Empty` means the queue is
/// momentarily drained but more may arrive; `Closed` means the channel is
/// closed and drained, so nothing will ever arrive again.
#[derive(Clone, Copy, PartialEq, Eq, Structural, Debug)]
pub enum TryRecvError {
    Empty,
    Closed,
}

/// The state of a channel as the contracts see it: the queued items, oldest
/// first, and whether the channel has been closed.
pub ghost struct ChannelModel<T> {
    pub items: Seq<T>,
    pub closed: bool,
}

/// What one `send` does to a channel: appended at the tail when the channel
/// is open, rejected without effect when it is closed.
pub open spec fn send_model<T>(m: ChannelModel<T>, item: T) -> ChannelModel<T> {
    if m.closed {
        m
    } else {
        ChannelModel { items: m.items.push(item), closed: false }
    }
}

/// What a whole run of sends does to a channel, first item first.
pub open spec fn send_all_model<T>(m: ChannelModel<T>, items: Seq<T>) -> ChannelModel<T>
    decreases items.len(),
{
    if items.len() == 0 {
        m
    } else {
        send_all_model(send_model(m, items[0]), items.drop_first())
    }
}

/// A FIFO queue of owned items with a closed flag: the single-owner model of
/// one direction of a channel port. Frames enter at the tail with `send`,
/// leave at the head with `try_recv`, each delivered exactly once and in
/// order; `close` makes every later `send` report [`ChannelClosed`] while the
/// already-queued items stay receivable until drained.
pub struct Channel<T> {
    queue: Vec<T>,
    closed: bool,
}

impl<T> Channel<T> {
    /// The queued items, oldest first.
    pub closed spec fn items(self) -> Seq<T> {
        self.queue@
    }

    /// Whether the receiving side has closed the channel.
    pub closed spec fn is_closed(self) -> bool {
        self.closed
    }

    /// The whole state, for laws stated over [`ChannelModel`].
    pub open spec fn model(self) -> ChannelModel<T> {
        ChannelModel { items: self.items(), closed: self.is_closed() }
    }

    /// A fresh channel: open, with nothing queued.
    pub fn new() -> (c: Self)
        ensures
            c.items() == Seq::<T>::empty(),
            !c.is_closed(),
    {
        Channel { queue: Vec::new(), closed: false }
    }

    /// How many items are queued right now.
    pub fn len(&self) -> (n: usize)
        ensures
            n == self.items().len(),
    {
        self.queue.len()
    }

    /// Whether the receiving side has closed the channel.
    pub fn closed_now(&self) -> (b: bool)
        ensures
            b == self.is_closed(),
    {
        self.closed
    }

    /// Enqueue one item at the tail. Succeeds exactly when the channel is
    /// still open; once it is closed the item is rejected and dropped, and
    /// the caller is told so.
    pub fn send(&mut self, item: T) -> (r: Result<(), ChannelClosed>)
        ensures
            r is Ok <==> !old(self).is_closed(),
            final(self).model() == send_model(old(self).model(), item),
    {
        if self.closed {
            Err(ChannelClosed)
        } else {
            self.queue.push(item);
            Ok(())
        }
    }

    /// Dequeue the oldest item, without ever blocking. When the queue is
    /// empty, reports `Empty` while the channel is open and `Closed` once it
    /// is closed; either way the state is left unchanged.
    pub fn try_recv(&mut self) -> (r: Result<T, TryRecvError>)
        ensures
            final(self).is_closed() == old(self).is_closed(),
            old(self).items().len() > 0 ==> r == Ok::<T, TryRecvError>(old(self).items()[0])
                && final(self).items() == old(self).items().drop_first(),
            old(self).items().len() == 0 ==> *final(self) == *old(self)
                && r == Err::<T, TryRecvError>(
                    if old(self).is_closed() { TryRecvError::Closed } else { TryRecvError::Empty },
                ),
    {
        if self.queue.len() > 0 {
            let item = self.queue.remove(0);
            proof {
                assert(self.queue@ =~= old(self).items().drop_first());
            }
            Ok(item)
        } else if self.closed {
            Err(TryRecvError::Closed)
        } else {
            Err(TryRecvError::Empty)
        }
    }

    /// Close the receiving side: every later `send` reports
    /// [`ChannelClosed`]; items already queued stay receivable until drained.
    pub fn close(&mut self)
        ensures
            final(self).is_closed(),
            final(self).items() == old(self).items(),
    {
        self.closed = true;
    }
}

/// Frames sent while a channel is open are all accepted and land at the tail
/// in exactly the order sent; receiving then yields them first-in first-out.
/// In particular, frames from any single sender identity arrive in the order
/// that sender submitted them.
pub proof fn lemma_open_channel_is_fifo<T>(m: ChannelModel<T>, items: Seq<T>)
    requires
        !m.closed,
    ensures
        send_all_model(m, items) == (ChannelModel { items: m.items + items, closed: false }),
    decreases items.len(),
{
    broadcast use group_seq_properties;

    if items.len() == 0 {
        assert(m.items + items =~= m.items);
    } else {
        lemma_open_channel_is_fifo(send_model(m, items[0]), items.drop_first());
        assert(m.items.push(items[0]) + items.drop_first() =~= m.items + items);
    }
}

/// Interleaving several sender identities never reorders any one of them:
/// since delivery order equals global send order, the frames of each single
/// sender — the restriction of the send sequence to that sender's tag — are
/// delivered in exactly the order that sender sent them.
pub proof fn lemma_per_sender_order_kept<T>(m: ChannelModel<(u64, T)>, sends: Seq<(u64, T)>, tag: u64)
    requires
        !m.closed,
    ensures
        send_all_model(m, sends).items.filter(|p: (u64, T)| p.0 == tag)
            == m.items.filter(|p: (u64, T)| p.0 == tag) + sends.filter(|p: (u64, T)| p.0 == tag),
{
    lemma_open_channel_is_fifo(m, sends);
    Seq::filter_distributes_over_add(m.items, sends, |p: (u64, T)| p.0 == tag);
}

/// Once the receiving side has closed a channel, every pending and future
/// send is rejected: no run of sends, however long, changes the state, and
/// each single send in it reports [`ChannelClosed`] (`send` succeeds exactly
/// when the channel is open).
pub proof fn lemma_closed_channel_rejects_sends<T>(m: ChannelModel<T>, items: Seq<T>)
    requires
        m.closed,
    ensures
        send_all_model(m, items) == m,
    decreases items.len(),
{
    if items.len() > 0 {
        lemma_closed_channel_rejects_sends(send_model(m, items[0]), items.drop_first());
    }
}

/// What one bounded send at a port does to a direction: appended at the tail
/// when the direction is open and under [`PORT_CAPACITY`], otherwise rejected
/// without effect — the newest frame is the one dropped.
pub open spec fn port_send_model(ch: ChannelModel<Frame>, frame: Frame) -> ChannelModel<Frame> {
    if ch.closed || ch.items.len() >= PORT_CAPACITY {
        ch
    } else {
        ChannelModel { items: ch.items.push(frame), closed: false }
    }
}

/// The two directions of one interface's channel port, single-owner like the
/// channels themselves: `inbound` carries frames captured on the wire toward
/// the virtual device, `outbound` carries frames committed by the stack back
/// toward the wire. The capture thread's sender and receiver handles and the
/// device's handles are, in this model, the method families of the two
/// fields.
pub struct ChannelPort {
    /// Captured frames on their way to the virtual device.
    pub inbound: Channel<Frame>,
    /// Frames committed by the stack on their way to the wire.
    pub outbound: Channel<Frame>,
}

impl ChannelPort {
    /// A fresh port: both directions open and empty.
    pub fn new() -> (p: Self)
        ensures
            p.inbound.items() == Seq::<Frame>::empty(),
            !p.inbound.is_closed(),
            p.outbound.items() == Seq::<Frame>::empty(),
            !p.outbound.is_closed(),
    {
        ChannelPort { inbound: Channel::new(), outbound: Channel::new() }
    }

    /// What the capture thread does with its sender handle: push one captured
    /// frame toward the device. Reports `Closed` once the device side has
    /// shut down, and `Full` — dropping this newest frame — once the inbound
    /// queue holds [`PORT_CAPACITY`] frames.
    pub fn push_captured(&mut self, frame: Frame) -> (r: Result<(), SendError>)
        ensures
            final(self).inbound.model() == port_send_model(old(self).inbound.model(), frame),
            final(self).outbound == old(self).outbound,
            r == if old(self).inbound.is_closed() {
                Err::<(), SendError>(SendError::Closed)
            } else if old(self).inbound.items().len() >= PORT_CAPACITY {
                Err::<(), SendError>(SendError::Full)
            } else {
                Ok::<(), SendError>(())
            },
    {
        if self.inbound.closed_now() {
            Err(SendError::Closed)
        } else if self.inbound.len() >= PORT_CAPACITY {
            Err(SendError::Full)
        } else {
            match self.inbound.send(frame) {
                Ok(()) => Ok(()),
                Err(ChannelClosed) => Err(SendError::Closed),
            }
        }
    }

    /// What the capture thread does with its receiver handle: take the next
    /// frame the stack committed for the wire, without blocking.
    pub fn pop_outgoing(&mut self) -> (r: Result<Frame, TryRecvError>)
        ensures
            final(self).inbound == old(self).inbound,
            final(self).outbound.is_closed() == old(self).outbound.is_closed(),
            old(self).outbound.items().len() > 0 ==> r == Ok::<Frame, TryRecvError>(
                old(self).outbound.items()[0],
            ) && final(self).outbound.items() == old(self).outbound.items().drop_first(),
            old(self).outbound.items().len() == 0 ==> *final(self) == *old(self)
                && r == Err::<Frame, TryRecvError>(
                if old(self).outbound.is_closed() { TryRecvError::Closed } else { TryRecvError::Empty },
            ),
    {
        self.outbound.try_recv()
    }

    /// The device side's receive primitive: pull the next captured frame,
    /// without blocking.
    pub fn try_recv(&mut self) -> (r: Result<Frame, TryRecvError>)
        ensures
            final(self).outbound == old(self).outbound,
            final(self).inbound.is_closed() == old(self).inbound.is_closed(),
            old(self).inbound.items().len() > 0 ==> r == Ok::<Frame, TryRecvError>(
                old(self).inbound.items()[0],
            ) && final(self).inbound.items() == old(self).inbound.items().drop_first(),
            old(self).inbound.items().len() == 0 ==> *final(self) == *old(self)
                && r == Err::<Frame, TryRecvError>(
                if old(self).inbound.is_closed() { TryRecvError::Closed } else { TryRecvError::Empty },
            ),
    {
        self.inbound.try_recv()
    }

    /// The device side's transmit primitive: commit one frame toward the
    /// wire. Reports `Closed` once the capture side has shut down, and `Full`
    /// — dropping this newest frame — once the outbound queue holds
    /// [`PORT_CAPACITY`] frames.
    pub fn send(&mut self, frame: Frame) -> (r: Result<(), SendError>)
        ensures
            final(self).outbound.model() == port_send_model(old(self).outbound.model(), frame),
            final(self).inbound == old(self).inbound,
            r == if old(self).outbound.is_closed() {
                Err::<(), SendError>(SendError::Closed)
            } else if old(self).outbound.items().len() >= PORT_CAPACITY {
                Err::<(), SendError>(SendError::Full)
            } else {
                Ok::<(), SendError>(())
            },
    {
        if self.outbound.closed_now() {
            Err(SendError::Closed)
        } else if self.outbound.len() >= PORT_CAPACITY {
            Err(SendError::Full)
        } else {
            match self.outbound.send(frame) {
                Ok(()) => Ok(()),
                Err(ChannelClosed) => Err(SendError::Closed),
            }
        }
    }

    /// The interface's sole teardown signal: close both directions. Every
    /// later send on either side reports `Closed`, and once drained
    /// both sides report exhaustion rather than blocking.
    pub fn close(&mut self)
        ensures
            final(self).inbound.is_closed(),
            final(self).inbound.items() == old(self).inbound.items(),
            final(self).outbound.is_closed(),
            final(self).outbound.items() == old(self).outbound.items(),
    {
        self.inbound.close();
        self.outbound.close();
    }
}

} // verus!
