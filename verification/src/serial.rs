//! The serial byte-I/O capability and its asynchronous operation wrappers.

use vstd::prelude::*;

use crate::poll::{HwError, OpPoll, PollCx};
use crate::wake::{fire_step, WakeSlot};

verus! {

/// The serial-port capability: transmit and receive one byte per pollable
/// step.  `tx_log()` models the bytes accepted for transmission so far, in
/// order; `rx_queue()` the received bytes not yet handed to the consumer.
pub trait SerialPort {
    /// The bytes accepted for transmission so far, oldest first.
    spec fn tx_log(&self) -> Seq<u8>;

    /// The received bytes not yet read, oldest first.
    spec fn rx_queue(&self) -> Seq<u8>;

    /// Whether the transmitter can accept a byte right now.
    spec fn tx_ready(&self) -> bool;

    /// The failure the hardware would report on a completed step, if any.
    spec fn fault(&self) -> Option<HwError>;

    /// The completion notifier arranged to be invoked, if any.
    spec fn waker(&self) -> Option<u64>;

    /// Attempt one step of transmitting `byte`.
    ///
    /// The outcome is owed: the poll suspends exactly when the
    /// transmitter cannot accept a byte now; otherwise it completes, with
    /// `Ok` when the hardware reports no fault — exactly this byte
    /// appended to the transmit log — and with exactly the
    /// hardware-reported failure otherwise, nothing transmitted.  A
    /// `Pending` commits nothing and guarantees that the context's wake
    /// notifier has been stored for the transmit-ready event.  Receiving
    /// is unaffected in every case.
    fn poll_write_byte(&mut self, cx: &PollCx, byte: u8) -> (r: OpPoll<()>)
        ensures
            final(self).rx_queue() == old(self).rx_queue(),
            !old(self).tx_ready() ==> r is Pending,
            old(self).tx_ready() && old(self).fault() is None ==> r == OpPoll::<()>::Ready(
                Ok(()),
            ),
            old(self).fault() matches Some(e) ==> (old(self).tx_ready() ==> r == OpPoll::<
                (),
            >::Ready(Err(e)) && final(self).tx_log() == old(self).tx_log()),
            r matches OpPoll::Ready(res) ==> (res is Ok ==> final(self).tx_log()
                == old(self).tx_log().push(byte)),
            r is Pending ==> !old(self).tx_ready()
                && final(self).tx_log() == old(self).tx_log()
                && final(self).waker() == Some(cx.waker),
    ;

    /// Attempt one step of receiving a byte.
    ///
    /// The outcome is owed: the poll suspends exactly when the receive
    /// queue is empty; otherwise it completes, taking exactly the oldest
    /// queued byte when the hardware reports no fault, and reporting
    /// exactly that failure otherwise, the queue untouched.  A `Pending`
    /// guarantees the context's wake notifier has been stored for the
    /// receive event.  Transmission is unaffected in every case.
    fn poll_read_byte(&mut self, cx: &PollCx) -> (r: OpPoll<u8>)
        ensures
            final(self).tx_log() == old(self).tx_log(),
            old(self).rx_queue().len() == 0 ==> r is Pending,
            old(self).rx_queue().len() > 0 && old(self).fault() is None ==> r == OpPoll::<
                u8,
            >::Ready(Ok(old(self).rx_queue()[0])),
            old(self).fault() matches Some(e) ==> (old(self).rx_queue().len() > 0 ==> r
                == OpPoll::<u8>::Ready(Err(e)) && final(self).rx_queue() == old(
                self,
            ).rx_queue()),
            r matches OpPoll::Ready(res) ==> (res matches Ok(b) ==> old(self).rx_queue().len()
                > 0 && b == old(self).rx_queue()[0] && final(self).rx_queue()
                == old(self).rx_queue().drop_first()),
            r is Pending ==> old(self).rx_queue().len() == 0
                && final(self).rx_queue() == old(self).rx_queue()
                && final(self).waker() == Some(cx.waker),
    ;
}

/// The asynchronous operation wrapper for [`SerialPort::poll_write_byte`].
#[derive(Debug)]
pub struct WriteByteFuture<A: SerialPort> {
    port: A,
    byte: u8,
    done: bool,
}

/// Wrap `port` into an operation that transmits `byte`.
pub fn write_byte<A: SerialPort>(port: A, byte: u8) -> (f: WriteByteFuture<A>)
    ensures
        f.port() == port,
        f.input() == byte,
        !f.is_done(),
{
    WriteByteFuture { port, byte, done: false }
}

impl<A: SerialPort> WriteByteFuture<A> {
    /// The wrapped capability handle.
    pub closed spec fn port(&self) -> A {
        self.port
    }

    /// The operation's fixed input: the byte to transmit.
    pub closed spec fn input(&self) -> u8 {
        self.byte
    }

    /// Whether the operation has reported `Ready`.
    pub closed spec fn is_done(&self) -> bool {
        self.done
    }

    /// Whether the operation already reported `Ready`.  A caller outside
    /// the proof must test this before polling again: a finished wrapper
    /// must not be polled.
    pub fn done(&self) -> (done: bool)
        ensures
            done == self.is_done(),
    {
        self.done
    }

    /// One scheduler poll; must not be called again after a `Ready`.
    pub fn poll(&mut self, cx: &PollCx) -> (r: OpPoll<()>)
        requires
            !old(self).is_done(),
        ensures
            final(self).input() == old(self).input(),
            final(self).is_done() == !(r is Pending),
            final(self).port().rx_queue() == old(self).port().rx_queue(),
            !old(self).port().tx_ready() ==> r is Pending,
            old(self).port().tx_ready() && old(self).port().fault() is None ==> r == OpPoll::<
                (),
            >::Ready(Ok(())),
            old(self).port().fault() matches Some(e) ==> (old(self).port().tx_ready() ==> r
                == OpPoll::<()>::Ready(Err(e)) && final(self).port().tx_log() == old(
                self,
            ).port().tx_log()),
            r matches OpPoll::Ready(res) ==> (res is Ok ==> final(self).port().tx_log()
                == old(self).port().tx_log().push(old(self).input())),
            r is Pending ==> !old(self).port().tx_ready()
                && final(self).port().tx_log() == old(self).port().tx_log()
                && final(self).port().waker() == Some(cx.waker),
    {
        let r = self.port.poll_write_byte(cx, self.byte);
        match r {
            OpPoll::Ready(res) => {
                self.done = true;
                OpPoll::Ready(res)
            },
            OpPoll::Pending => OpPoll::Pending,
        }
    }

    /// Borrow the underlying hardware for the simulated interrupt-side
    /// collaborator; the wrapper's own state is untouched.
    pub fn port_mut(&mut self) -> (port: &mut A)
        ensures
            *port == old(self).port(),
            final(self).port() == *final(port),
            final(self).input() == old(self).input(),
            final(self).is_done() == old(self).is_done(),
    {
        &mut self.port
    }

    /// Give the port handle back; before `Ready` this cancels the write.
    pub fn into_port(self) -> (port: A)
        ensures
            port == self.port(),
    {
        self.port
    }
}

/// The asynchronous operation wrapper for [`SerialPort::poll_read_byte`].
#[derive(Debug)]
pub struct ReadByteFuture<A: SerialPort> {
    port: A,
    done: bool,
}

/// Wrap `port` into an operation that receives one byte.
pub fn read_byte<A: SerialPort>(port: A) -> (f: ReadByteFuture<A>)
    ensures
        f.port() == port,
        !f.is_done(),
{
    ReadByteFuture { port, done: false }
}

impl<A: SerialPort> ReadByteFuture<A> {
    /// The wrapped capability handle.
    pub closed spec fn port(&self) -> A {
        self.port
    }

    /// Whether the operation has reported `Ready`.
    pub closed spec fn is_done(&self) -> bool {
        self.done
    }

    /// Whether the operation already reported `Ready`.  A caller outside
    /// the proof must test this before polling again: a finished wrapper
    /// must not be polled.
    pub fn done(&self) -> (done: bool)
        ensures
            done == self.is_done(),
    {
        self.done
    }

    /// One scheduler poll; must not be called again after a `Ready`.
    pub fn poll(&mut self, cx: &PollCx) -> (r: OpPoll<u8>)
        requires
            !old(self).is_done(),
        ensures
            final(self).is_done() == !(r is Pending),
            final(self).port().tx_log() == old(self).port().tx_log(),
            old(self).port().rx_queue().len() == 0 ==> r is Pending,
            old(self).port().rx_queue().len() > 0 && old(self).port().fault() is None ==> r
                == OpPoll::<u8>::Ready(Ok(old(self).port().rx_queue()[0])),
            old(self).port().fault() matches Some(e) ==> (old(self).port().rx_queue().len() > 0
                ==> r == OpPoll::<u8>::Ready(Err(e)) && final(self).port().rx_queue() == old(
                self,
            ).port().rx_queue()),
            r matches OpPoll::Ready(res) ==> (res matches Ok(b)
                ==> old(self).port().rx_queue().len() > 0
                    && b == old(self).port().rx_queue()[0]
                    && final(self).port().rx_queue() == old(self).port().rx_queue().drop_first()),
            r is Pending ==> old(self).port().rx_queue().len() == 0
                && final(self).port().rx_queue() == old(self).port().rx_queue()
                && final(self).port().waker() == Some(cx.waker),
    {
        let r = self.port.poll_read_byte(cx);
        match r {
            OpPoll::Ready(res) => {
                self.done = true;
                OpPoll::Ready(res)
            },
            OpPoll::Pending => OpPoll::Pending,
        }
    }

    /// Borrow the underlying hardware for the simulated interrupt-side
    /// collaborator; the wrapper's own state is untouched.
    pub fn port_mut(&mut self) -> (port: &mut A)
        ensures
            *port == old(self).port(),
            final(self).port() == *final(port),
            final(self).is_done() == old(self).is_done(),
    {
        &mut self.port
    }

    /// Give the port handle back; before `Ready` this cancels the read.
    pub fn into_port(self) -> (port: A)
        ensures
            port == self.port(),
    {
        self.port
    }
}

/// A simulated serial port: transmitted bytes accumulate in a log, the
/// test's "wire" delivers received bytes one by one.  An injected fault
/// makes completed steps report that failure.
#[derive(Debug)]
pub struct SimSerial {
    tx: Vec<u8>,
    rx: Vec<u8>,
    tx_ready: bool,
    fault: Option<HwError>,
    slot: WakeSlot,
}

impl SimSerial {
    /// A port with an empty transmit log and receive queue, reporting no
    /// fault.
    pub fn new(tx_ready: bool) -> (p: SimSerial)
        ensures
            p.tx_log() == Seq::<u8>::empty(),
            p.rx_queue() == Seq::<u8>::empty(),
            p.tx_ready() == tx_ready,
            p.fault() is None,
            p.waker() is None,
    {
        SimSerial { tx: Vec::new(), rx: Vec::new(), tx_ready, fault: None, slot: WakeSlot::new() }
    }

    /// Test side: every completed step now reports the failure `fault`.
    pub fn inject_fault(&mut self, fault: HwError)
        ensures
            final(self).fault() == Some(fault),
            final(self).tx_log() == old(self).tx_log(),
            final(self).rx_queue() == old(self).rx_queue(),
            final(self).tx_ready() == old(self).tx_ready(),
            final(self).waker() == old(self).waker(),
    {
        self.fault = Some(fault);
    }

    /// Wire side: a byte arrives and the receive interrupt delivers the
    /// parked notifier, if any.
    pub fn deliver(&mut self, byte: u8) -> (woken: Option<u64>)
        ensures
            final(self).rx_queue() == old(self).rx_queue().push(byte),
            final(self).tx_log() == old(self).tx_log(),
            final(self).tx_ready() == old(self).tx_ready(),
            final(self).fault() == old(self).fault(),
            woken == fire_step(old(self).waker()).0,
            final(self).waker() == fire_step(old(self).waker()).1,
    {
        self.rx.push(byte);
        self.slot.fire()
    }

    /// Hardware side: the transmitter drains and the transmit-ready
    /// interrupt delivers the parked notifier, if any.
    pub fn drain_tx(&mut self) -> (woken: Option<u64>)
        ensures
            final(self).tx_ready(),
            final(self).tx_log() == old(self).tx_log(),
            final(self).rx_queue() == old(self).rx_queue(),
            final(self).fault() == old(self).fault(),
            woken == fire_step(old(self).waker()).0,
            final(self).waker() == fire_step(old(self).waker()).1,
    {
        self.tx_ready = true;
        self.slot.fire()
    }
}

impl SerialPort for SimSerial {
    closed spec fn tx_log(&self) -> Seq<u8> {
        self.tx@
    }

    closed spec fn rx_queue(&self) -> Seq<u8> {
        self.rx@
    }

    closed spec fn tx_ready(&self) -> bool {
        self.tx_ready
    }

    closed spec fn fault(&self) -> Option<HwError> {
        self.fault
    }

    closed spec fn waker(&self) -> Option<u64> {
        self.slot@
    }

    fn poll_write_byte(&mut self, cx: &PollCx, byte: u8) -> (r: OpPoll<()>) {
        if self.tx_ready {
            match self.fault {
                Some(e) => OpPoll::Ready(Err(e)),
                None => {
                    self.tx.push(byte);
                    OpPoll::Ready(Ok(()))
                },
            }
        } else {
            self.slot.register(cx.waker);
            OpPoll::Pending
        }
    }

    fn poll_read_byte(&mut self, cx: &PollCx) -> (r: OpPoll<u8>) {
        if self.rx.len() > 0 {
            match self.fault {
                Some(e) => OpPoll::Ready(Err(e)),
                None => {
                    let byte = self.rx.remove(0);
                    OpPoll::Ready(Ok(byte))
                },
            }
        } else {
            self.slot.register(cx.waker);
            OpPoll::Pending
        }
    }
}

} // verus!
