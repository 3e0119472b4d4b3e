//! The external collaborators of the driver: the two-wire bus transport
//! and the blocking timing source.
//!
//! Both are described by traits whose contracts speak about a history: the
//! sequence of bus transactions a transport has completed, and the sequence
//! of blocking waits a timing source has performed. The driver's contracts
//! are stated over these histories, so they pin down exactly which bus
//! activity every operation causes. An implementation is supplied by the
//! caller (a real bus binding, or a mock in tests) and is trusted to meet
//! these contracts; nothing else about it is assumed.

use vstd::prelude::*;

verus! {

/// One completed bus transaction, as recorded in a transport's history.
pub enum BusOp {
    /// A buffer written to a device address.
    Write {
        /// The 7-bit bus address written to.
        address: u8,
        /// The bytes that were written.
        bytes: Seq<u8>,
    },
    /// A buffer read from a device address.
    Read {
        /// The 7-bit bus address read from.
        address: u8,
        /// The bytes that were received.
        bytes: Seq<u8>,
    },
}

/// A byte-buffer transport over the two-wire bus, addressed by a 7-bit
/// device address.
///
/// `ops()` models the history of completed transactions. A successful call
/// appends exactly one transaction; a failed call completes none and
/// leaves the history as it was.
pub trait I2cTransport {
    /// The error type of the underlying bus.
    type BusError;

    /// The history of completed bus transactions. The default leaves the
    /// history abstract; an implementation outside of verified code need
    /// not name one.
    open spec fn ops(&self) -> Seq<BusOp> {
        arbitrary()
    }

    /// Write `bytes` to the device at `address`.
    fn write(&mut self, address: u8, bytes: &[u8]) -> (result: Result<(), Self::BusError>)
        ensures
            result is Ok ==> final(self).ops() == old(self).ops().push(
                BusOp::Write { address, bytes: bytes@ },
            ),
            result is Err ==> final(self).ops() == old(self).ops(),
    ;

    /// Read bytes from the device at `address` into `buffer`, filling it
    /// completely.
    fn read(&mut self, address: u8, buffer: &mut Vec<u8>) -> (result: Result<
        (),
        Self::BusError,
    >)
        ensures
            result is Ok ==> final(buffer)@.len() == old(buffer)@.len() && final(self).ops()
                == old(self).ops().push(
                BusOp::Read { address, bytes: final(buffer)@ },
            ),
            result is Err ==> final(buffer)@ == old(buffer)@ && final(self).ops() == old(
                self,
            ).ops(),
    ;
}

/// A blocking timing source.
///
/// `waits()` models the history of blocking delays, each recorded as its
/// duration in microseconds.
pub trait DelayTimer {
    /// The history of blocking waits, in microseconds. The default leaves
    /// the history abstract; an implementation outside of verified code
    /// need not name one.
    open spec fn waits(&self) -> Seq<nat> {
        arbitrary()
    }

    /// Block for `us` microseconds.
    fn delay_us(&mut self, us: u16)
        ensures
            final(self).waits() == old(self).waits().push(us as nat),
    ;

    /// Block for `ms` milliseconds.
    fn delay_ms(&mut self, ms: u16)
        ensures
            final(self).waits() == old(self).waits().push((ms as nat) * 1000),
    ;
}

} // verus!
