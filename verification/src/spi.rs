//! The SPI transfer capability and its asynchronous operation wrapper.

use vstd::prelude::*;

use crate::poll::{HwError, OpPoll, PollCx};
use crate::wake::{fire_step, WakeSlot};

verus! {

/// The SPI capability: a full-duplex exchange of one word per pollable
/// step.  `mosi_log()` models the words shifted out so far; `miso_next()`
/// the word the peer will shift back on the next completed exchange;
/// `fault()` the failure the hardware would report on a completed step.
pub trait SpiBus {
    /// The words shifted out so far, oldest first.
    spec fn mosi_log(&self) -> Seq<u8>;

    /// The word the peer will shift back on the next completed exchange.
    spec fn miso_next(&self) -> u8;

    /// Whether the shift register can take a word right now.
    spec fn xfer_ready(&self) -> bool;

    /// The failure the hardware would report on a completed step, if any.
    spec fn fault(&self) -> Option<HwError>;

    /// The completion notifier arranged to be invoked, if any.
    spec fn waker(&self) -> Option<u64>;

    /// Attempt one step of exchanging `mosi` for the peer's word.
    ///
    /// The outcome is owed: the poll suspends exactly when the shift
    /// register cannot take a word now; otherwise it completes, with
    /// `Ok(miso)` when the hardware reports no fault — exactly one word
    /// shifted out, `miso` what the peer shifted back — and with exactly
    /// the hardware-reported failure otherwise, nothing shifted.  A
    /// `Pending` commits nothing and guarantees that the context's wake
    /// notifier has been stored for the shift-register-ready event.
    fn poll_transfer_byte(&mut self, cx: &PollCx, mosi: u8) -> (r: OpPoll<u8>)
        ensures
            !old(self).xfer_ready() ==> r is Pending,
            old(self).xfer_ready() && old(self).fault() is None ==> r == OpPoll::<u8>::Ready(
                Ok(old(self).miso_next()),
            ),
            old(self).fault() matches Some(e) ==> (old(self).xfer_ready() ==> r == OpPoll::<
                u8,
            >::Ready(Err(e)) && final(self).mosi_log() == old(self).mosi_log()),
            r matches OpPoll::Ready(res) ==> (res matches Ok(miso) ==> final(self).mosi_log()
                == old(self).mosi_log().push(mosi) && miso == old(self).miso_next()),
            r is Pending ==> !old(self).xfer_ready()
                && final(self).mosi_log() == old(self).mosi_log()
                && final(self).waker() == Some(cx.waker),
    ;
}

/// The asynchronous operation wrapper for [`SpiBus::poll_transfer_byte`]:
/// the bus handle paired with the word to shift out.
#[derive(Debug)]
pub struct TransferFuture<A: SpiBus> {
    bus: A,
    mosi: u8,
    done: bool,
}

/// Wrap `bus` into an operation that exchanges `mosi` for the peer's word.
pub fn transfer_byte<A: SpiBus>(bus: A, mosi: u8) -> (f: TransferFuture<A>)
    ensures
        f.bus() == bus,
        f.input() == mosi,
        !f.is_done(),
{
    TransferFuture { bus, mosi, done: false }
}

impl<A: SpiBus> TransferFuture<A> {
    /// The wrapped capability handle.
    pub closed spec fn bus(&self) -> A {
        self.bus
    }

    /// The operation's fixed input: the word to shift out.
    pub closed spec fn input(&self) -> u8 {
        self.mosi
    }

    /// Whether the operation has reported `Ready`.
    pub closed spec fn is_done(&self) -> bool {
        self.done
    }

    /// Whether the operation already reported `Ready`.  A caller outside
    /// the proof must test this before polling again: a finished wrapper
    /// must not be polled.
    pub fn done(&self) -> (done: bool)
        ensures
            done == self.is_done(),
    {
        self.done
    }

    /// One scheduler poll; must not be called again after a `Ready`.
    pub fn poll(&mut self, cx: &PollCx) -> (r: OpPoll<u8>)
        requires
            !old(self).is_done(),
        ensures
            final(self).input() == old(self).input(),
            final(self).is_done() == !(r is Pending),
            !old(self).bus().xfer_ready() ==> r is Pending,
            old(self).bus().xfer_ready() && old(self).bus().fault() is None ==> r == OpPoll::<
                u8,
            >::Ready(Ok(old(self).bus().miso_next())),
            old(self).bus().fault() matches Some(e) ==> (old(self).bus().xfer_ready() ==> r
                == OpPoll::<u8>::Ready(Err(e)) && final(self).bus().mosi_log() == old(
                self,
            ).bus().mosi_log()),
            r matches OpPoll::Ready(res) ==> (res matches Ok(miso)
                ==> final(self).bus().mosi_log()
                    == old(self).bus().mosi_log().push(old(self).input())
                    && miso == old(self).bus().miso_next()),
            r is Pending ==> !old(self).bus().xfer_ready()
                && final(self).bus().mosi_log() == old(self).bus().mosi_log()
                && final(self).bus().waker() == Some(cx.waker),
    {
        let r = self.bus.poll_transfer_byte(cx, self.mosi);
        match r {
            OpPoll::Ready(res) => {
                self.done = true;
                OpPoll::Ready(res)
            },
            OpPoll::Pending => OpPoll::Pending,
        }
    }

    /// Borrow the underlying hardware for the simulated interrupt-side
    /// collaborator; the wrapper's own state is untouched.
    pub fn bus_mut(&mut self) -> (bus: &mut A)
        ensures
            *bus == old(self).bus(),
            final(self).bus() == *final(bus),
            final(self).input() == old(self).input(),
            final(self).is_done() == old(self).is_done(),
    {
        &mut self.bus
    }

    /// Give the bus handle back; before `Ready` this cancels the exchange.
    pub fn into_bus(self) -> (bus: A)
        ensures
            bus == self.bus(),
    {
        self.bus
    }
}

/// A simulated SPI bus: the peer answers with a settable word; shifted-out
/// words accumulate in a log.  An injected fault makes completed steps
/// report that failure.
#[derive(Debug)]
pub struct SimSpi {
    log: Vec<u8>,
    response: u8,
    ready: bool,
    fault: Option<HwError>,
    slot: WakeSlot,
}

impl SimSpi {
    /// A bus whose peer will answer `response`, with an empty log and no
    /// fault.
    pub fn new(response: u8, ready: bool) -> (b: SimSpi)
        ensures
            b.mosi_log() == Seq::<u8>::empty(),
            b.miso_next() == response,
            b.xfer_ready() == ready,
            b.fault() is None,
            b.waker() is None,
    {
        SimSpi { log: Vec::new(), response, ready, fault: None, slot: WakeSlot::new() }
    }

    /// Test side: every completed step now reports the failure `fault`.
    pub fn inject_fault(&mut self, fault: HwError)
        ensures
            final(self).fault() == Some(fault),
            final(self).mosi_log() == old(self).mosi_log(),
            final(self).miso_next() == old(self).miso_next(),
            final(self).xfer_ready() == old(self).xfer_ready(),
            final(self).waker() == old(self).waker(),
    {
        self.fault = Some(fault);
    }

    /// Hardware side: the shift register becomes free and the completion
    /// interrupt delivers the parked notifier, if any.
    pub fn complete(&mut self) -> (woken: Option<u64>)
        ensures
            final(self).xfer_ready(),
            final(self).mosi_log() == old(self).mosi_log(),
            final(self).miso_next() == old(self).miso_next(),
            final(self).fault() == old(self).fault(),
            woken == fire_step(old(self).waker()).0,
            final(self).waker() == fire_step(old(self).waker()).1,
    {
        self.ready = true;
        self.slot.fire()
    }

    /// Test side: the peer will answer `response` on the next exchange.
    pub fn respond_with(&mut self, response: u8)
        ensures
            final(self).miso_next() == response,
            final(self).mosi_log() == old(self).mosi_log(),
            final(self).xfer_ready() == old(self).xfer_ready(),
            final(self).fault() == old(self).fault(),
            final(self).waker() == old(self).waker(),
    {
        self.response = response;
    }
}

impl SpiBus for SimSpi {
    closed spec fn mosi_log(&self) -> Seq<u8> {
        self.log@
    }

    closed spec fn miso_next(&self) -> u8 {
        self.response
    }

    closed spec fn xfer_ready(&self) -> bool {
        self.ready
    }

    closed spec fn fault(&self) -> Option<HwError> {
        self.fault
    }

    closed spec fn waker(&self) -> Option<u64> {
        self.slot@
    }

    fn poll_transfer_byte(&mut self, cx: &PollCx, mosi: u8) -> (r: OpPoll<u8>) {
        if self.ready {
            match self.fault {
                Some(e) => OpPoll::Ready(Err(e)),
                None => {
                    self.log.push(mosi);
                    OpPoll::Ready(Ok(self.response))
                },
            }
        } else {
            self.slot.register(cx.waker);
            OpPoll::Pending
        }
    }
}

} // verus!
