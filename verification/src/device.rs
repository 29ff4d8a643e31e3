//! The virtual network device adapter: the frame-exchange capability the
//! embedded IP stack polls once per tick, built from one channel port and a
//! pair of move-only, single-use tokens.
//!
//! A [`RawRxToken`] wraps one already-captured frame and is consumed exactly
//! once by a reader; a [`RawTxToken`] is the right to commit exactly one
//! frame toward the wire, consumed by a filler that is handed a zeroed buffer
//! of the requested length. Dropping either token without consuming it is a
//! silent no-op: no frame is produced, none is lost twice — the exactly-once
//! commit discipline.

use vstd::prelude::*;
use crate::channel::ChannelPort;
use crate::channel::Frame;
use crate::channel::port_send_model;

verus! {

/// The largest Ethernet frame the bridge forwards; the device's fixed
/// maximum transmission unit.
pub const MAX_FRAME_SIZE: usize = 1536;

/// What the device declares to the embedded stack: a fixed maximum frame
/// size and a burst of one — the stack must not batch several frames onto
/// one token pair.
pub struct DeviceCapabilities {
    pub max_transmission_unit: usize,
    pub max_burst_size: Option<usize>,
}

/// The right to read one captured frame, exactly once. Move-only: consuming
/// takes the token by value, and dropping it unconsumed merely discards the
/// frame.
pub struct RawRxToken {
    frame: Frame,
}

impl RawRxToken {
    /// The captured frame this token grants access to.
    pub closed spec fn frame(self) -> Frame {
        self.frame
    }

    /// Hand the captured frame to the reader and return what it made of it.
    /// The token is gone afterwards: the frame is read exactly once.
    pub fn consume<R, F: FnOnce(Frame) -> R>(self, f: F) -> (r: R)
        requires
            call_requires(f, (self.frame(),)),
        ensures
            call_ensures(f, (self.frame(),), r),
    {
        f(self.frame)
    }
}

/// The right to commit one frame of a chosen length toward the wire, exactly
/// once. Move-only: consuming takes the token by value, and a token dropped
/// unconsumed produces no frame. In this single-owner model the sender handle
/// the token would carry is the port handed to `consume`.
pub struct RawTxToken {
    grant: (),
}

impl RawTxToken {
    /// Commit one frame: a buffer of exactly `len` zero bytes is allocated,
    /// the filler turns it into the outgoing frame, and the result is moved
    /// into the port's outbound queue. When the capture side has already
    /// closed the port, or the outbound queue is at its bound, the filled
    /// frame is dropped — one interface's teardown or backlog is no reason to
    /// stop the stack — and the filler's result is still returned.
    pub fn consume<R, F: FnOnce(Frame) -> (Frame, R)>(
        self,
        len: usize,
        port: &mut ChannelPort,
        f: F,
    ) -> (r: R)
        requires
            forall|b: Frame| b@ == Seq::new(len as nat, |k: int| 0u8) ==> call_requires(f, (b,)),
        ensures
            final(port).inbound == old(port).inbound,
            exists|b: Frame, filled: Frame|
                {
                    &&& b@ == Seq::new(len as nat, |k: int| 0u8)
                    &&& #[trigger] call_ensures(f, (b,), (filled, r))
                    &&& final(port).outbound.model() == port_send_model(
                        old(port).outbound.model(),
                        filled,
                    )
                },
    {
        let mut buffer: Frame = Vec::new();
        let mut i: usize = 0;
        while i < len
            invariant
                i <= len,
                buffer@.len() == i as nat,
                forall|j: int| 0 <= j < i ==> buffer@[j] == 0u8,
            decreases len - i,
        {
            buffer.push(0u8);
            i = i + 1;
        }
        proof {
            assert(buffer@ =~= Seq::new(len as nat, |k: int| 0u8));
        }
        let ghost zeroed = buffer;
        let (filled, r) = f(buffer);
        let ghost committed = filled;
        let _sent = port.send(filled);
        proof {
            assert(call_ensures(f, (zeroed,), (committed, r)));
        }
        r
    }
}

/// The virtual network device: one per physical interface, owning the device
/// side of that interface's channel port.
pub struct RawsockDevice {
    pub port: ChannelPort,
}

impl RawsockDevice {
    /// Wrap the device side of a channel port.
    pub fn new(port: ChannelPort) -> (d: Self)
        ensures
            d.port == port,
    {
        RawsockDevice { port }
    }

    /// One non-blocking pull from the channel port, called once per poll-loop
    /// tick: when a captured frame is waiting, a ready receive token for it
    /// is paired with a fresh transmit token so the stack can reply in the
    /// same tick. When nothing is waiting — or the port is closed and drained,
    /// the interface's teardown signal — it reports exhaustion with `None`
    /// rather than panicking or blocking.
    pub fn receive(&mut self) -> (r: Option<(RawRxToken, RawTxToken)>)
        ensures
            final(self).port.outbound == old(self).port.outbound,
            final(self).port.inbound.is_closed() == old(self).port.inbound.is_closed(),
            r is Some <==> old(self).port.inbound.items().len() > 0,
            old(self).port.inbound.items().len() > 0 ==> (r->0).0.frame() == old(
                self,
            ).port.inbound.items()[0] && final(self).port.inbound.items() == old(
                self,
            ).port.inbound.items().drop_first(),
            old(self).port.inbound.items().len() == 0 ==> *final(self) == *old(self),
    {
        match self.port.try_recv() {
            Ok(frame) => Some((RawRxToken { frame }, RawTxToken { grant: () })),
            Err(_) => None,
        }
    }

    /// A fresh transmit token, always available: the stack may originate a
    /// frame on any tick. The device itself is untouched.
    pub fn transmit(&mut self) -> (r: Option<RawTxToken>)
        ensures
            r is Some,
            *final(self) == *old(self),
    {
        Some(RawTxToken { grant: () })
    }

    /// The fixed capabilities declared to the embedded stack: frames up to
    /// [`MAX_FRAME_SIZE`] bytes, one frame per token pair.
    pub fn capabilities(&self) -> (c: DeviceCapabilities)
        ensures
            c.max_transmission_unit == MAX_FRAME_SIZE,
            c.max_burst_size == Some(1usize),
    {
        DeviceCapabilities { max_transmission_unit: MAX_FRAME_SIZE, max_burst_size: Some(1) }
    }
}

} // verus!
