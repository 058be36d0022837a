//! The I2C transfer capability and its asynchronous operation wrappers.

use vstd::prelude::*;

use crate::poll::{HwError, OpPoll, PollCx};
use crate::wake::{fire_step, WakeSlot};

verus! {

/// The I2C capability: addressed write, read and write-then-read
/// transactions, one transaction per pollable step.
///
/// `acks(addr)` models whether a device acknowledges at `addr`;
/// `read_response(addr, len)` the bytes a read of `len` from that device
/// yields now; `transfer_response(addr, out, len)` the bytes a read of
/// `len` yields immediately after writing `out` in the same transaction.
/// Reading is side-effect-free in this model, and the only failure is the
/// NACK of an absent device.
pub trait I2cBus {
    /// Whether the bus can start a transaction right now.
    spec fn bus_ready(&self) -> bool;

    /// The completion notifier arranged to be invoked, if any.
    spec fn waker(&self) -> Option<u64>;

    /// Whether a device acknowledges at `addr`.
    spec fn acks(&self, addr: u8) -> bool;

    /// The bytes a read of `len` from the device at `addr` yields now.
    spec fn read_response(&self, addr: u8, len: nat) -> Seq<u8>;

    /// The bytes a read of `len` from the device at `addr` yields right
    /// after `out` was written to it in the same transaction.
    spec fn transfer_response(&self, addr: u8, out: Seq<u8>, len: nat) -> Seq<u8>;

    /// Attempt one step of writing `data` to the device at `addr`.
    ///
    /// `Ready(Ok(..))` means the addressed device acknowledged and took
    /// the bytes in one transaction; `Ready(Err(Nack))` that no device
    /// acknowledged, with nothing written.  `Pending` commits nothing and
    /// guarantees the context's wake notifier has been stored for the
    /// bus-free event.
    fn poll_write(&mut self, cx: &PollCx, addr: u8, data: &Vec<u8>) -> (r: OpPoll<()>)
        ensures
            old(self).bus_ready() ==> !(r is Pending),
            !old(self).bus_ready() ==> r is Pending,
            r matches OpPoll::Ready(res) ==> (res is Ok <==> old(self).acks(addr)),
            r matches OpPoll::Ready(res) ==> (res matches Err(e) ==> e == HwError::Nack),
            r is Pending ==> !old(self).bus_ready() && final(self).waker() == Some(cx.waker),
            !(r matches OpPoll::Ready(res) && res is Ok) ==> forall|a: u8, n: nat|
                #[trigger] final(self).read_response(a, n) == old(self).read_response(a, n),
            forall|a: u8| #[trigger] final(self).acks(a) == old(self).acks(a),
    ;

    /// Attempt one step of reading `len` bytes from the device at `addr`.
    fn poll_read(&mut self, cx: &PollCx, addr: u8, len: usize) -> (r: OpPoll<Vec<u8>>)
        ensures
            old(self).bus_ready() ==> !(r is Pending),
            !old(self).bus_ready() ==> r is Pending,
            r matches OpPoll::Ready(res) ==> (res is Ok <==> old(self).acks(addr)),
            r matches OpPoll::Ready(res) ==> (res matches Ok(data) ==> data@ == old(
                self,
            ).read_response(addr, len as nat) && data@.len() == len),
            r matches OpPoll::Ready(res) ==> (res matches Err(e) ==> e == HwError::Nack),
            r is Pending ==> !old(self).bus_ready() && final(self).waker() == Some(cx.waker),
            forall|a: u8, n: nat| #[trigger] final(self).read_response(a, n) == old(
                self,
            ).read_response(a, n),
            forall|a: u8| #[trigger] final(self).acks(a) == old(self).acks(a),
    ;

    /// Attempt one step of writing `out` to the device at `addr` and
    /// reading `len` bytes back without releasing the bus in between.
    fn poll_transfer(&mut self, cx: &PollCx, addr: u8, out: &Vec<u8>, len: usize) -> (r: OpPoll<
        Vec<u8>,
    >)
        ensures
            old(self).bus_ready() ==> !(r is Pending),
            !old(self).bus_ready() ==> r is Pending,
            r matches OpPoll::Ready(res) ==> (res is Ok <==> old(self).acks(addr)),
            r matches OpPoll::Ready(res) ==> (res matches Ok(data) ==> data@ == old(
                self,
            ).transfer_response(addr, out@, len as nat) && data@.len() == len),
            r matches OpPoll::Ready(res) ==> (res matches Err(e) ==> e == HwError::Nack),
            r is Pending ==> !old(self).bus_ready() && final(self).waker() == Some(cx.waker),
            !(r matches OpPoll::Ready(res) && res is Ok) ==> forall|a: u8, n: nat|
                #[trigger] final(self).read_response(a, n) == old(self).read_response(a, n),
            forall|a: u8| #[trigger] final(self).acks(a) == old(self).acks(a),
    ;
}

/// The asynchronous operation wrapper for [`I2cBus::poll_write`].
#[derive(Debug)]
pub struct I2cWriteFuture<A: I2cBus> {
    bus: A,
    addr: u8,
    data: Vec<u8>,
    done: bool,
}

/// Wrap `bus` into an operation that writes `data` to the device at
/// `addr`.
pub fn i2c_write<A: I2cBus>(bus: A, addr: u8, data: Vec<u8>) -> (f: I2cWriteFuture<A>)
    ensures
        f.bus() == bus,
        f.addr() == addr,
        f.data() == data@,
        !f.is_done(),
{
    I2cWriteFuture { bus, addr, data, done: false }
}

impl<A: I2cBus> I2cWriteFuture<A> {
    /// The wrapped capability handle.
    pub closed spec fn bus(&self) -> A {
        self.bus
    }

    /// The operation's fixed input: the target device address.
    pub closed spec fn addr(&self) -> u8 {
        self.addr
    }

    /// The operation's fixed input: the bytes to write.
    pub closed spec fn data(&self) -> Seq<u8> {
        self.data@
    }

    /// Whether the operation has reported `Ready`.
    pub closed spec fn is_done(&self) -> bool {
        self.done
    }

    /// Whether the operation already reported `Ready`.  A caller outside
    /// the proof must test this before polling again: a finished wrapper
    /// must not be polled.
    pub fn done(&self) -> (done: bool)
        ensures
            done == self.is_done(),
    {
        self.done
    }

    /// One scheduler poll; must not be called again after a `Ready`.
    pub fn poll(&mut self, cx: &PollCx) -> (r: OpPoll<()>)
        requires
            !old(self).is_done(),
        ensures
            final(self).addr() == old(self).addr(),
            final(self).data() == old(self).data(),
            final(self).is_done() == !(r is Pending),
            old(self).bus().bus_ready() ==> !(r is Pending),
            !old(self).bus().bus_ready() ==> r is Pending,
            r matches OpPoll::Ready(res) ==> (res is Ok <==> old(self).bus().acks(
                old(self).addr(),
            )),
            r matches OpPoll::Ready(res) ==> (res matches Err(e) ==> e == HwError::Nack),
            r is Pending ==> !old(self).bus().bus_ready() && final(self).bus().waker() == Some(
                cx.waker,
            ),
    {
        let r = self.bus.poll_write(cx, self.addr, &self.data);
        match r {
            OpPoll::Ready(res) => {
                self.done = true;
                OpPoll::Ready(res)
            },
            OpPoll::Pending => OpPoll::Pending,
        }
    }

    /// Borrow the underlying hardware for the simulated interrupt-side
    /// collaborator; the wrapper's own state is untouched.
    pub fn bus_mut(&mut self) -> (bus: &mut A)
        ensures
            *bus == old(self).bus(),
            final(self).bus() == *final(bus),
            final(self).addr() == old(self).addr(),
            final(self).data() == old(self).data(),
            final(self).is_done() == old(self).is_done(),
    {
        &mut self.bus
    }

    /// Give the bus handle back; before `Ready` this cancels the write.
    pub fn into_bus(self) -> (bus: A)
        ensures
            bus == self.bus(),
    {
        self.bus
    }
}

/// The asynchronous operation wrapper for [`I2cBus::poll_read`].
#[derive(Debug)]
pub struct I2cReadFuture<A: I2cBus> {
    bus: A,
    addr: u8,
    len: usize,
    done: bool,
}

/// Wrap `bus` into an operation that reads `len` bytes from the device at
/// `addr`.
pub fn i2c_read<A: I2cBus>(bus: A, addr: u8, len: usize) -> (f: I2cReadFuture<A>)
    ensures
        f.bus() == bus,
        f.addr() == addr,
        f.len() == len,
        !f.is_done(),
{
    I2cReadFuture { bus, addr, len, done: false }
}

impl<A: I2cBus> I2cReadFuture<A> {
    /// The wrapped capability handle.
    pub closed spec fn bus(&self) -> A {
        self.bus
    }

    /// The operation's fixed input: the target device address.
    pub closed spec fn addr(&self) -> u8 {
        self.addr
    }

    /// The operation's fixed input: how many bytes to read.
    pub closed spec fn len(&self) -> usize {
        self.len
    }

    /// Whether the operation has reported `Ready`.
    pub closed spec fn is_done(&self) -> bool {
        self.done
    }

    /// Whether the operation already reported `Ready`.  A caller outside
    /// the proof must test this before polling again: a finished wrapper
    /// must not be polled.
    pub fn done(&self) -> (done: bool)
        ensures
            done == self.is_done(),
    {
        self.done
    }

    /// One scheduler poll; must not be called again after a `Ready`.
    pub fn poll(&mut self, cx: &PollCx) -> (r: OpPoll<Vec<u8>>)
        requires
            !old(self).is_done(),
        ensures
            final(self).addr() == old(self).addr(),
            final(self).len() == old(self).len(),
            final(self).is_done() == !(r is Pending),
            old(self).bus().bus_ready() ==> !(r is Pending),
            !old(self).bus().bus_ready() ==> r is Pending,
            r matches OpPoll::Ready(res) ==> (res is Ok <==> old(self).bus().acks(
                old(self).addr(),
            )),
            r matches OpPoll::Ready(res) ==> (res matches Ok(data) ==> data@ == old(
                self,
            ).bus().read_response(old(self).addr(), old(self).len() as nat) && data@.len() == old(
                self,
            ).len()),
            r matches OpPoll::Ready(res) ==> (res matches Err(e) ==> e == HwError::Nack),
            r is Pending ==> !old(self).bus().bus_ready() && final(self).bus().waker() == Some(
                cx.waker,
            ),
    {
        let r = self.bus.poll_read(cx, self.addr, self.len);
        match r {
            OpPoll::Ready(res) => {
                self.done = true;
                OpPoll::Ready(res)
            },
            OpPoll::Pending => OpPoll::Pending,
        }
    }

    /// Borrow the underlying hardware for the simulated interrupt-side
    /// collaborator; the wrapper's own state is untouched.
    pub fn bus_mut(&mut self) -> (bus: &mut A)
        ensures
            *bus == old(self).bus(),
            final(self).bus() == *final(bus),
            final(self).addr() == old(self).addr(),
            final(self).len() == old(self).len(),
            final(self).is_done() == old(self).is_done(),
    {
        &mut self.bus
    }

    /// Give the bus handle back; before `Ready` this cancels the read.
    pub fn into_bus(self) -> (bus: A)
        ensures
            bus == self.bus(),
    {
        self.bus
    }
}

/// The asynchronous operation wrapper for [`I2cBus::poll_transfer`].
#[derive(Debug)]
pub struct I2cTransferFuture<A: I2cBus> {
    bus: A,
    addr: u8,
    out: Vec<u8>,
    len: usize,
    done: bool,
}

/// Wrap `bus` into an operation that writes `out` to the device at `addr`
/// and reads `len` bytes back in the same transaction.
pub fn i2c_transfer<A: I2cBus>(bus: A, addr: u8, out: Vec<u8>, len: usize) -> (f:
    I2cTransferFuture<A>)
    ensures
        f.bus() == bus,
        f.addr() == addr,
        f.out() == out@,
        f.len() == len,
        !f.is_done(),
{
    I2cTransferFuture { bus, addr, out, len, done: false }
}

impl<A: I2cBus> I2cTransferFuture<A> {
    /// The wrapped capability handle.
    pub closed spec fn bus(&self) -> A {
        self.bus
    }

    /// The operation's fixed input: the target device address.
    pub closed spec fn addr(&self) -> u8 {
        self.addr
    }

    /// The operation's fixed input: the bytes to write first.
    pub closed spec fn out(&self) -> Seq<u8> {
        self.out@
    }

    /// The operation's fixed input: how many bytes to read back.
    pub closed spec fn len(&self) -> usize {
        self.len
    }

    /// Whether the operation has reported `Ready`.
    pub closed spec fn is_done(&self) -> bool {
        self.done
    }

    /// Whether the operation already reported `Ready`.  A caller outside
    /// the proof must test this before polling again: a finished wrapper
    /// must not be polled.
    pub fn done(&self) -> (done: bool)
        ensures
            done == self.is_done(),
    {
        self.done
    }

    /// One scheduler poll; must not be called again after a `Ready`.
    pub fn poll(&mut self, cx: &PollCx) -> (r: OpPoll<Vec<u8>>)
        requires
            !old(self).is_done(),
        ensures
            final(self).addr() == old(self).addr(),
            final(self).out() == old(self).out(),
            final(self).len() == old(self).len(),
            final(self).is_done() == !(r is Pending),
            old(self).bus().bus_ready() ==> !(r is Pending),
            !old(self).bus().bus_ready() ==> r is Pending,
            r matches OpPoll::Ready(res) ==> (res is Ok <==> old(self).bus().acks(
                old(self).addr(),
            )),
            r matches OpPoll::Ready(res) ==> (res matches Ok(data) ==> data@ == old(
                self,
            ).bus().transfer_response(old(self).addr(), old(self).out(), old(self).len() as nat)
                && data@.len() == old(self).len()),
            r matches OpPoll::Ready(res) ==> (res matches Err(e) ==> e == HwError::Nack),
            r is Pending ==> !old(self).bus().bus_ready() && final(self).bus().waker() == Some(
                cx.waker,
            ),
    {
        let r = self.bus.poll_transfer(cx, self.addr, &self.out, self.len);
        match r {
            OpPoll::Ready(res) => {
                self.done = true;
                OpPoll::Ready(res)
            },
            OpPoll::Pending => OpPoll::Pending,
        }
    }

    /// Give the bus handle back; before `Ready` this cancels the
    /// transaction.
    pub fn into_bus(self) -> (bus: A)
        ensures
            bus == self.bus(),
    {
        self.bus
    }
}

/// A simulated I2C bus with a single device: the device stores the bytes
/// last written to it, answers reads with its stored bytes padded with
/// zeroes, and NACKs every other address.
#[derive(Debug)]
pub struct SimI2cDevice {
    addr: u8,
    mem: Vec<u8>,
    ready: bool,
    slot: WakeSlot,
}

impl SimI2cDevice {
    /// A bus with one device at `addr` whose memory is empty.
    pub fn new(addr: u8, ready: bool) -> (b: SimI2cDevice)
        ensures
            b.acks(addr),
            forall|a: u8| #[trigger] b.acks(a) == (a == addr),
            b.bus_ready() == ready,
            b.waker() is None,
            forall|n: nat| #[trigger] b.read_response(addr, n) == Seq::<u8>::new(n, |i: int| 0u8),
    {
        SimI2cDevice { addr, mem: Vec::new(), ready, slot: WakeSlot::new() }
    }

    /// Hardware side: the bus becomes free and the completion interrupt
    /// delivers the parked notifier, if any.
    pub fn complete(&mut self) -> (woken: Option<u64>)
        ensures
            final(self).bus_ready(),
            forall|a: u8, n: nat| #[trigger] final(self).read_response(a, n) == old(
                self,
            ).read_response(a, n),
            forall|a: u8| #[trigger] final(self).acks(a) == old(self).acks(a),
            woken == fire_step(old(self).waker()).0,
            final(self).waker() == fire_step(old(self).waker()).1,
    {
        self.ready = true;
        self.slot.fire()
    }
}

impl I2cBus for SimI2cDevice {
    closed spec fn bus_ready(&self) -> bool {
        self.ready
    }

    closed spec fn waker(&self) -> Option<u64> {
        self.slot@
    }

    closed spec fn acks(&self, addr: u8) -> bool {
        addr == self.addr
    }

    closed spec fn read_response(&self, addr: u8, len: nat) -> Seq<u8> {
        Seq::new(
            len,
            |i: int|
                if i < self.mem@.len() {
                    self.mem@[i]
                } else {
                    0u8
                },
        )
    }

    closed spec fn transfer_response(&self, addr: u8, out: Seq<u8>, len: nat) -> Seq<u8> {
        Seq::new(
            len,
            |i: int|
                if i < out.len() {
                    out[i]
                } else {
                    0u8
                },
        )
    }

    fn poll_write(&mut self, cx: &PollCx, addr: u8, data: &Vec<u8>) -> (r: OpPoll<()>) {
        if !self.ready {
            self.slot.register(cx.waker);
            OpPoll::Pending
        } else if addr != self.addr {
            OpPoll::Ready(Err(HwError::Nack))
        } else {
            self.mem = copy_bytes(data);
            OpPoll::Ready(Ok(()))
        }
    }

    fn poll_read(&mut self, cx: &PollCx, addr: u8, len: usize) -> (r: OpPoll<Vec<u8>>) {
        if !self.ready {
            self.slot.register(cx.waker);
            OpPoll::Pending
        } else if addr != self.addr {
            OpPoll::Ready(Err(HwError::Nack))
        } else {
            let data = padded_prefix(&self.mem, len);
            proof {
                assert(data@ =~= self.read_response(addr, len as nat));
            }
            OpPoll::Ready(Ok(data))
        }
    }

    fn poll_transfer(&mut self, cx: &PollCx, addr: u8, out: &Vec<u8>, len: usize) -> (r: OpPoll<
        Vec<u8>,
    >) {
        if !self.ready {
            self.slot.register(cx.waker);
            OpPoll::Pending
        } else if addr != self.addr {
            OpPoll::Ready(Err(HwError::Nack))
        } else {
            self.mem = copy_bytes(out);
            let data = padded_prefix(&self.mem, len);
            proof {
                assert(data@ =~= old(self).transfer_response(addr, out@, len as nat));
            }
            OpPoll::Ready(Ok(data))
        }
    }
}

/// A plain copy of a byte vector.
fn copy_bytes(data: &Vec<u8>) -> (copied: Vec<u8>)
    ensures
        copied@ == data@,
{
    let mut copied: Vec<u8> = Vec::new();
    let mut i: usize = 0;
    while i < data.len()
        invariant
            i <= data@.len(),
            copied@ == data@.subrange(0, i as int),
        decreases data@.len() - i,
    {
        copied.push(data[i]);
        proof {
            assert(copied@ =~= data@.subrange(0, i + 1 as int));
        }
        i = i + 1;
    }
    proof {
        assert(copied@ =~= data@);
    }
    copied
}

/// The first `len` bytes of `mem`, padded with zeroes past its end.
fn padded_prefix(mem: &Vec<u8>, len: usize) -> (data: Vec<u8>)
    ensures
        data@.len() == len,
        forall|i: int| 0 <= i < len ==> data@[i] == (if i < mem@.len() {
            mem@[i]
        } else {
            0u8
        }),
{
    let mut data: Vec<u8> = Vec::new();
    let mut i: usize = 0;
    while i < len
        invariant
            i <= len,
            data@.len() == i,
            forall|j: int| 0 <= j < i ==> data@[j] == (if j < mem@.len() {
                mem@[j]
            } else {
                0u8
            }),
        decreases len - i,
    {
        if i < mem.len() {
            data.push(mem[i]);
        } else {
            data.push(0u8);
        }
        i = i + 1;
    }
    data
}

} // verus!
