use vstd::prelude::*;
use std::sync::Arc;

verus! {

/// The spin lock that serializes access to a transport.
#[verifier::external_type_specification]
#[verifier::external_body]
#[verifier::reject_recursive_types(T)]
#[verifier::reject_recursive_types(R)]
pub struct ExSpinMutex<T: ?Sized, R>(spin::mutex::Mutex<T, R>);

/// Proof of exclusive access, released when dropped.
#[verifier::external_type_specification]
#[verifier::external_body]
#[verifier::reject_recursive_types(T)]
pub struct ExSpinMutexGuard<'a, T: 'a + ?Sized>(spin::mutex::MutexGuard<'a, T>);

/// The default relax strategy of `spin::Mutex`: busy-wait with a spin hint.
#[verifier::external_type_specification]
#[verifier::external_body]
pub struct ExSpinRelax(spin::relax::Spin);

/// Relies on spin::mutex::Mutex::new: wraps the value in an unlocked mutex.
pub assume_specification<T, R>[ spin::mutex::Mutex::<T, R>::new ](value: T) -> spin::mutex::Mutex<T, R>;

/// Relies on spin::mutex::Mutex::lock: spins until the lock is free, then holds it
/// until the guard is dropped.
pub assume_specification<T: ?Sized, R: spin::relax::RelaxStrategy>[ spin::mutex::Mutex::<T, R>::lock ](
    m: &spin::mutex::Mutex<T, R>,
) -> spin::mutex::MutexGuard<'_, T>;

/// Relies on the `DerefMut` impl of spin's guard: a mutable view of the locked value.
pub assume_specification<'a, 'b, T: ?Sized>[ <spin::mutex::MutexGuard<'a, T> as core::ops::DerefMut>::deref_mut ](
    g: &'b mut spin::mutex::MutexGuard<'a, T>,
) -> &'b mut T;

/// Ceiling, in milliseconds, that every bus request hands to the transport.
pub const TIMEOUT_MS: u64 = 100;

/// What a transport reports when a transfer fails.
#[derive(Debug, Clone, Copy, PartialEq, Eq, Structural)]
pub enum TransportFault {
    /// The transfer did not complete within the timeout it was given.
    Timeout,
    /// The addressed device, or a data byte, was not acknowledged.
    NoAcknowledge,
    /// Another controller won the bus.
    ArbitrationLoss,
    /// A bus error such as a misplaced start or stop condition.
    Bus,
    /// A buffer overrun or underrun.
    Overrun,
    /// Any other fault of the driver.
    Other,
}

/// The ESP-IDF status for a generic failure; its I2C master returns it when
/// a byte is not acknowledged.
pub const ESP_FAIL: i32 = -1;

/// The ESP-IDF status for an operation that timed out.
pub const ESP_ERR_TIMEOUT: i32 = 0x107;

/// The transport fault that an ESP-IDF I2C status code stands for.
pub fn fault_of_code(code: i32) -> (f: TransportFault)
    ensures
        code == ESP_ERR_TIMEOUT ==> f == TransportFault::Timeout,
        code == ESP_FAIL ==> f == TransportFault::NoAcknowledge,
        code != ESP_ERR_TIMEOUT && code != ESP_FAIL ==> f == TransportFault::Other,
{
    if code == ESP_ERR_TIMEOUT {
        TransportFault::Timeout
    } else if code == ESP_FAIL {
        TransportFault::NoAcknowledge
    } else {
        TransportFault::Other
    }
}

/// The uniform error taxonomy that the arbiter hands to its clients.
#[derive(Debug, Clone, Copy, PartialEq, Eq, Structural)]
pub enum BusError {
    Timeout,
    Nack,
    Other,
}

pub open spec fn spec_classify(f: TransportFault) -> BusError {
    match f {
        TransportFault::Timeout => BusError::Timeout,
        TransportFault::NoAcknowledge => BusError::Nack,
        _ => BusError::Other,
    }
}

pub open spec fn spec_outcome(res: Result<(), TransportFault>) -> Result<(), BusError> {
    match res {
        Ok(()) => Ok(()),
        Err(f) => Err(spec_classify(f)),
    }
}

/// Sorts a transport fault into the arbiter's taxonomy.
pub fn classify(f: TransportFault) -> (r: BusError)
    ensures
        r == spec_classify(f),
{
    match f {
        TransportFault::Timeout => BusError::Timeout,
        TransportFault::NoAcknowledge => BusError::Nack,
        _ => BusError::Other,
    }
}

/// The result of a transport call, with its fault classified.
pub fn outcome(res: Result<(), TransportFault>) -> (r: Result<(), BusError>)
    ensures
        r == spec_outcome(res),
{
    match res {
        Ok(()) => Ok(()),
        Err(f) => Err(classify(f)),
    }
}

/// One part of a transaction; a read fills its buffer.
#[derive(Debug, PartialEq, Eq)]
pub enum Operation {
    Read(Vec<u8>),
    Write(Vec<u8>),
}

/// A part of a transfer as the wire carried it: the bytes sent, or the bytes received.
pub enum Segment {
    Read(Seq<u8>),
    Write(Seq<u8>),
}

impl Operation {
    pub open spec fn segment(self) -> Segment {
        match self {
            Operation::Read(v) => Segment::Read(v@),
            Operation::Write(v) => Segment::Write(v@),
        }
    }
}

pub open spec fn segments_of(ops: Seq<Operation>) -> Seq<Segment> {
    ops.map_values(|o: Operation| o.segment())
}

/// One request as the transport serviced it, start to end, with nothing in between.
pub struct Transfer {
    pub addr: u8,
    pub segments: Seq<Segment>,
    pub timeout_ms: u32,
    pub outcome: Result<(), BusError>,
}

pub open spec fn transfer(addr: u8, segments: Seq<Segment>, outcome: Result<(), BusError>) -> Transfer {
    Transfer { addr, segments, timeout_ms: TIMEOUT_MS as u32, outcome }
}

/// A physical two-wire bus with blocking primitives, each bounded by the
/// timeout it is given. The platform's I2C driver implements it, and so can a
/// test double.
///
/// `wire()` is what the bus has carried: one record per call, with the
/// address, the bytes sent and received, the timeout the call was given and
/// the call's outcome. Proofs over a generic transport never unfold the
/// default body: they rest on the method contracts alone, which every
/// implementation is taken to meet. A verified implementation overrides
/// `wire` with its own record; one written outside verified code cannot, and
/// keeps the empty default. A buffer is a slice, whose length the call cannot
/// change.
pub trait Transport {
    open spec fn wire(&self) -> Seq<Transfer> {
        Seq::empty()
    }

    fn read(&mut self, addr: u8, buffer: &mut [u8], timeout_ms: u32) -> (r: Result<(), TransportFault>)
        ensures
            final(buffer)@.len() == old(buffer)@.len(),
            final(self).wire() == old(self).wire().push(
                Transfer {
                    addr,
                    segments: seq![Segment::Read(final(buffer)@)],
                    timeout_ms,
                    outcome: spec_outcome(r),
                },
            ),
    ;

    fn write(&mut self, addr: u8, bytes: &[u8], timeout_ms: u32) -> (r: Result<(), TransportFault>)
        ensures
            final(self).wire() == old(self).wire().push(
                Transfer {
                    addr,
                    segments: seq![Segment::Write(bytes@)],
                    timeout_ms,
                    outcome: spec_outcome(r),
                },
            ),
    ;

    fn write_read(&mut self, addr: u8, bytes: &[u8], buffer: &mut [u8], timeout_ms: u32) -> (r: Result<
        (),
        TransportFault,
    >)
        ensures
            final(buffer)@.len() == old(buffer)@.len(),
            final(self).wire() == old(self).wire().push(
                Transfer {
                    addr,
                    segments: seq![Segment::Write(bytes@), Segment::Read(final(buffer)@)],
                    timeout_ms,
                    outcome: spec_outcome(r),
                },
            ),
    ;

    fn transaction(&mut self, addr: u8, operations: &mut [Operation], timeout_ms: u32) -> (r: Result<
        (),
        TransportFault,
    >)
        ensures
            final(self).wire() == old(self).wire().push(
                Transfer {
                    addr,
                    segments: segments_of(final(operations)@),
                    timeout_ms,
                    outcome: spec_outcome(r),
                },
            ),
    ;
}

/// Services a read on a transport that the caller holds exclusively: one call,
/// carrying the bus's timeout budget, whose fault is classified.
pub fn serve_read<T: Transport>(t: &mut T, addr: u8, buffer: &mut [u8]) -> (r: Result<(), BusError>)
    ensures
        final(buffer)@.len() == old(buffer)@.len(),
        final(t).wire() == old(t).wire().push(
            transfer(addr, seq![Segment::Read(final(buffer)@)], r),
        ),
{
    outcome(t.read(addr, buffer, timeout_ms()))
}

/// Services a write on a transport that the caller holds exclusively.
pub fn serve_write<T: Transport>(t: &mut T, addr: u8, bytes: &[u8]) -> (r: Result<(), BusError>)
    ensures
        final(t).wire() == old(t).wire().push(transfer(addr, seq![Segment::Write(bytes@)], r)),
{
    outcome(t.write(addr, bytes, timeout_ms()))
}

/// Services a write-then-read on a transport that the caller holds
/// exclusively: both phases in one call, so nothing comes in between.
pub fn serve_write_read<T: Transport>(t: &mut T, addr: u8, bytes: &[u8], buffer: &mut [u8]) -> (r:
    Result<(), BusError>)
    ensures
        final(buffer)@.len() == old(buffer)@.len(),
        final(t).wire() == old(t).wire().push(
            transfer(addr, seq![Segment::Write(bytes@), Segment::Read(final(buffer)@)], r),
        ),
{
    outcome(t.write_read(addr, bytes, buffer, timeout_ms()))
}

/// Services a transaction on a transport that the caller holds exclusively:
/// all its operations, in order, in one call.
pub fn serve_transaction<T: Transport>(t: &mut T, addr: u8, operations: &mut [Operation]) -> (r:
    Result<(), BusError>)
    ensures
        final(t).wire() == old(t).wire().push(
            transfer(addr, segments_of(final(operations)@), r),
        ),
{
    outcome(t.transaction(addr, operations, timeout_ms()))
}

/// The timeout, in milliseconds, handed to the transport with every request.
pub fn timeout_ms() -> (r: u32)
    ensures
        r == TIMEOUT_MS,
{
    if TIMEOUT_MS <= u32::MAX as u64 {
        TIMEOUT_MS as u32
    } else {
        u32::MAX
    }
}

/// A value behind a spin lock, shared by reference counting.
#[verifier::reject_recursive_types(T)]
pub struct EspMutex<T> {
    inner: Arc<spin::mutex::Mutex<T>>,
}

impl<T> EspMutex<T> {
    pub fn new(t: T) -> Self {
        EspMutex { inner: Arc::new(spin::mutex::Mutex::new(t)) }
    }

    /// Blocks until no other holder has the value, then grants it until the guard drops.
    pub fn lock(&self) -> spin::mutex::MutexGuard<'_, T> {
        self.inner.lock()
    }
}

/// The bus arbiter: the only owner of a transport, shared by its clients
/// through handles, servicing one request at a time under the lock.
///
/// Each request locks the transport, hands it to the matching `serve_*`
/// function, whose contract fixes the one transport call it makes, and
/// releases it. `transfers()` is the history of the requests that went through
/// this handle: for each, the record that the transport itself added to its
/// `wire()` while the lock was held, in the order in which they held the bus.
#[verifier::reject_recursive_types(T)]
pub struct I2cManager<T> {
    i2c: Arc<EspMutex<T>>,
    history: Ghost<Seq<Transfer>>,
}

impl<T: Transport> I2cManager<T> {
    pub closed spec fn transfers(&self) -> Seq<Transfer> {
        self.history@
    }

    pub fn new(i2c: T) -> (r: Self)
        ensures
            r.transfers() == Seq::<Transfer>::empty(),
    {
        I2cManager { i2c: Arc::new(EspMutex::new(i2c)), history: Ghost(Seq::empty()) }
    }

    /// A second handle on the same transport; its history starts empty.
    pub fn share(&self) -> (r: Self)
        ensures
            r.transfers() == Seq::<Transfer>::empty(),
    {
        I2cManager { i2c: self.i2c.clone(), history: Ghost(Seq::empty()) }
    }

    /// The timeout, in milliseconds, handed to the transport with every request.
    pub fn timeout_ms() -> (r: u32)
        ensures
            r == TIMEOUT_MS,
    {
        timeout_ms()
    }

    /// Reads `buffer.len()` bytes from the device at `addr`.
    pub fn read(&mut self, addr: u8, buffer: &mut [u8]) -> (r: Result<(), BusError>)
        ensures
            final(buffer)@.len() == old(buffer)@.len(),
            final(self).transfers() == old(self).transfers().push(
                transfer(addr, seq![Segment::Read(final(buffer)@)], r),
            ),
    {
        let res = {
            let mut guard = self.i2c.lock();
            let t: &mut T = core::ops::DerefMut::deref_mut(&mut guard);
            let r = serve_read(t, addr, buffer);
            proof {
                self.history@ = self.history@.push(t.wire().last());
            }
            r
        };
        res
    }
    /// Sends `bytes` to the device at `addr`.
    pub fn write(&mut self, addr: u8, bytes: &[u8]) -> (r: Result<(), BusError>)
        ensures
            final(self).transfers() == old(self).transfers().push(
                transfer(addr, seq![Segment::Write(bytes@)], r),
            ),
    {
        let res = {
            let mut guard = self.i2c.lock();
            let t: &mut T = core::ops::DerefMut::deref_mut(&mut guard);
            let r = serve_write(t, addr, bytes);
            proof {
                self.history@ = self.history@.push(t.wire().last());
            }
            r
        };
        res
    }

    /// Sends `bytes`, then reads `buffer.len()` bytes, with no other request in between.
    pub fn write_read(&mut self, addr: u8, bytes: &[u8], buffer: &mut [u8]) -> (r: Result<
        (),
        BusError,
    >)
        ensures
            final(buffer)@.len() == old(buffer)@.len(),
            final(self).transfers() == old(self).transfers().push(
                transfer(addr, seq![Segment::Write(bytes@), Segment::Read(final(buffer)@)], r),
            ),
    {
        let res = {
            let mut guard = self.i2c.lock();
            let t: &mut T = core::ops::DerefMut::deref_mut(&mut guard);
            let r = serve_write_read(t, addr, bytes, buffer);
            proof {
                self.history@ = self.history@.push(t.wire().last());
            }
            r
        };
        res
    }

    /// Runs `operations` in order as one indivisible request.
    pub fn transaction(&mut self, addr: u8, operations: &mut [Operation]) -> (r: Result<
        (),
        BusError,
    >)
        ensures
            final(self).transfers() == old(self).transfers().push(
                transfer(addr, segments_of(final(operations)@), r),
            ),
    {
        let res = {
            let mut guard = self.i2c.lock();
            let t: &mut T = core::ops::DerefMut::deref_mut(&mut guard);
            let r = serve_transaction(t, addr, operations);
            proof {
                self.history@ = self.history@.push(t.wire().last());
            }
            r
        };
        res
    }
}

} // verus!
