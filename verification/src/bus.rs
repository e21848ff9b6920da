//! The addressed two-wire bus the controller drives, modelled as a trait
//! whose contract records every attempted transaction in a ghost history.
//!
//! The history is the controller's whole interface to the outside world, so
//! each controller operation can state exactly which transactions it issues,
//! in which order, and how its result — the transport error included —
//! follows from their outcomes.

use vstd::prelude::*;

verus! {

/// One attempted bus transaction: the device address, the bytes written, the
/// bytes read back (empty for a plain write or a failed transaction), and
/// the transport error it failed with, if any.
pub ghost struct Transaction<E> {
    /// The 7-bit device address the transaction was directed at.
    pub addr: u8,
    /// The bytes written, register address first.
    pub written: Seq<u8>,
    /// The bytes read back; empty unless this was a successful
    /// write-then-read.
    pub read: Seq<u8>,
    /// `None` if the transport completed the transaction, otherwise the
    /// error it failed with.
    pub fault: Option<E>,
}

impl<E> Transaction<E> {
    /// Whether the transport completed the transaction.
    pub open spec fn ok(self) -> bool {
        self.fault is None
    }
}

/// The error of a result, or `None` on success.
pub open spec fn spec_fault<T, E>(r: Result<T, E>) -> Option<E> {
    match r {
        Ok(_) => None,
        Err(e) => Some(e),
    }
}

/// A write of `val` to register `reg` of the device at `addr`.
pub open spec fn write_transaction<E>(addr: u8, reg: u8, val: u8, fault: Option<E>) -> Transaction<
    E,
> {
    Transaction { addr, written: seq![reg, val], read: Seq::empty(), fault }
}

/// A successful write-then-read of `data` starting at register `reg` of the
/// device at `addr`.
pub open spec fn read_transaction<E>(addr: u8, reg: u8, data: Seq<u8>) -> Transaction<E> {
    Transaction { addr, written: seq![reg], read: data, fault: None }
}

/// A write-then-read addressed at register `reg` of the device at `addr`
/// that failed with the transport error `e`.
pub open spec fn failed_read_transaction<E>(addr: u8, reg: u8, e: E) -> Transaction<E> {
    Transaction { addr, written: seq![reg], read: Seq::empty(), fault: Some(e) }
}

/// An addressed two-wire bus master.
///
/// An implementation performs single write and write-then-read transactions
/// against a 7-bit device address and appends every attempt, successful or
/// not, to its transaction history, a failed attempt together with the error
/// it returns. A transport error is surfaced immediately; this layer never
/// retries.
pub trait Bus: Sized {
    /// The transport's error type.
    type BusError;

    /// Every transaction attempted so far, oldest first.
    spec fn history(&self) -> Seq<Transaction<Self::BusError>>;

    /// Write `bytes` to the device at `addr` in a single transaction.
    fn write(&mut self, addr: u8, bytes: Vec<u8>) -> (r: Result<(), Self::BusError>)
        ensures
            final(self).history() == old(self).history().push(
                Transaction { addr, written: bytes@, read: Seq::empty(), fault: spec_fault(r) },
            ),
    ;

    /// Write `bytes` to the device at `addr`, then read exactly `read_len`
    /// bytes back, as a single transaction.
    fn write_read(&mut self, addr: u8, bytes: Vec<u8>, read_len: usize) -> (r: Result<
        Vec<u8>,
        Self::BusError,
    >)
        ensures
            match r {
                Ok(data) => data@.len() == read_len && final(self).history() == old(
                    self,
                ).history().push(Transaction { addr, written: bytes@, read: data@, fault: None }),
                Err(e) => final(self).history() == old(self).history().push(
                    Transaction { addr, written: bytes@, read: Seq::empty(), fault: Some(e) },
                ),
            },
    ;
}

} // verus!
