//! A scripted bus: a verified in-memory implementation of [`Bus`] that
//! answers each transaction from a prepared script and keeps a full record
//! of what was attempted.
//!
//! It stands in for a real transport when exercising the controller: a
//! script entry can hand back fixed read data or fail a transaction at a
//! chosen point, and the record shows every byte the controller put on the
//! bus, in order. Its contracts pin the outcome of every transaction to the
//! script, so scripted scenarios can be reasoned about, not only run.

use vstd::prelude::*;
use crate::bus::Bus;
use crate::bus::Transaction;
use crate::bus::spec_fault;

verus! {

/// The scripted answer to one transaction: either fail it, or complete it
/// and answer a read from `data` (padded with zeroes past its end).
pub struct ScriptStep {
    /// Whether the transaction fails with a transport error.
    pub fail: bool,
    /// The bytes a read is answered from.
    pub data: Vec<u8>,
}

impl ScriptStep {
    /// A step that completes the transaction, answering reads from `data`.
    pub fn succeed(data: Vec<u8>) -> (r: Self)
        ensures
            !r.fail,
            r.data == data,
    {
        ScriptStep { fail: false, data }
    }

    /// A step that fails the transaction with a transport error.
    pub fn fail_step() -> (r: Self)
        ensures
            r.fail,
    {
        ScriptStep { fail: true, data: Vec::new() }
    }
}

/// Whether the script fails the transaction at position `step`; past the
/// script's end every transaction succeeds.
pub open spec fn spec_step_fails(script: Seq<ScriptStep>, step: int) -> bool {
    0 <= step < script.len() && script[step].fail
}

/// The bytes a successful scripted read at position `step` answers: the
/// script entry's data, cut or zero-padded to `read_len` bytes; all zeroes
/// past the script's end.
pub open spec fn spec_scripted_read(script: Seq<ScriptStep>, step: int, read_len: nat) -> Seq<u8> {
    Seq::new(
        read_len,
        |i: int|
            if 0 <= step < script.len() && i < script[step].data@.len() {
                script[step].data@[i]
            } else {
                0u8
            },
    )
}

/// One recorded transaction: the exec mirror of [`Transaction`].
pub struct TransactionRecord {
    /// The device address the transaction was directed at.
    pub addr: u8,
    /// The bytes written, register address first.
    pub written: Vec<u8>,
    /// The bytes read back; empty unless this was a successful
    /// write-then-read.
    pub read: Vec<u8>,
    /// `None` if the transaction completed, otherwise the error it failed
    /// with.
    pub fault: Option<ScriptError>,
}

impl View for TransactionRecord {
    type V = Transaction<ScriptError>;

    open spec fn view(&self) -> Transaction<ScriptError> {
        Transaction { addr: self.addr, written: self.written@, read: self.read@, fault: self.fault }
    }
}

/// The error of a failed scripted transaction.
#[derive(Debug, Copy, Clone, PartialEq, Eq, Structural)]
pub struct ScriptError {
    /// The position of the failed transaction in the record, counted from
    /// zero.
    pub step: usize,
}

/// A bus whose transactions are answered from a script, one entry per
/// transaction in order; past the script's end every transaction succeeds
/// and reads answer all zeroes.
pub struct ScriptedBus {
    /// The prepared answers, one per transaction.
    pub script: Vec<ScriptStep>,
    /// Every transaction attempted so far, oldest first.
    pub record: Vec<TransactionRecord>,
}

impl ScriptedBus {
    /// A scripted bus with an empty record.
    pub fn new(script: Vec<ScriptStep>) -> (r: Self)
        ensures
            r.script == script,
            r.record@ == Seq::<TransactionRecord>::empty(),
    {
        ScriptedBus { script, record: Vec::new() }
    }
}

impl Bus for ScriptedBus {
    type BusError = ScriptError;

    open spec fn history(&self) -> Seq<Transaction<ScriptError>> {
        self.record@.map_values(|r: TransactionRecord| r@)
    }

    fn write(&mut self, addr: u8, bytes: Vec<u8>) -> (r: Result<(), ScriptError>)
        ensures
            final(self).history() == old(self).history().push(
                Transaction { addr, written: bytes@, read: Seq::empty(), fault: spec_fault(r) },
            ),
            final(self).script == old(self).script,
            final(self).record@.len() == old(self).record@.len() + 1,
            r is Err <==> spec_step_fails(old(self).script@, old(self).record@.len() as int),
            (r matches Err(e) ==> e == (ScriptError { step: old(self).record.len() })),
    {
        let step = self.record.len();
        let fail = step < self.script.len() && self.script[step].fail;
        let fault = if fail {
            Some(ScriptError { step })
        } else {
            None
        };
        let rec = TransactionRecord { addr, written: bytes, read: Vec::new(), fault };
        let ghost tx = rec@;
        self.record.push(rec);
        proof {
            assert(self.history() =~= old(self).history().push(tx));
        }
        match fault {
            Some(e) => Err(e),
            None => Ok(()),
        }
    }

    fn write_read(&mut self, addr: u8, bytes: Vec<u8>, read_len: usize) -> (r: Result<
        Vec<u8>,
        ScriptError,
    >)
        ensures
            match r {
                Ok(data) => data@.len() == read_len && final(self).history() == old(
                    self,
                ).history().push(Transaction { addr, written: bytes@, read: data@, fault: None }),
                Err(e) => final(self).history() == old(self).history().push(
                    Transaction { addr, written: bytes@, read: Seq::empty(), fault: Some(e) },
                ),
            },
            final(self).script == old(self).script,
            final(self).record@.len() == old(self).record@.len() + 1,
            r is Err <==> spec_step_fails(old(self).script@, old(self).record@.len() as int),
            (match r {
                Ok(data) => data@ == spec_scripted_read(
                    old(self).script@,
                    old(self).record@.len() as int,
                    read_len as nat,
                ),
                Err(e) => e == (ScriptError { step: old(self).record.len() }),
            }),
    {
        let step = self.record.len();
        let fail = step < self.script.len() && self.script[step].fail;
        if fail {
            let e = ScriptError { step };
            let rec = TransactionRecord { addr, written: bytes, read: Vec::new(), fault: Some(e) };
            let ghost tx = rec@;
            self.record.push(rec);
            proof {
                assert(self.history() =~= old(self).history().push(tx));
            }
            return Err(e);
        }
        let mut data: Vec<u8> = Vec::new();
        let mut kept: Vec<u8> = Vec::new();
        let mut i: usize = 0;
        while i < read_len
            invariant
                i <= read_len,
                data@.len() == i,
                kept@ == data@,
                self == old(self),
                step == self.record@.len(),
                forall|k: int|
                    0 <= k < i ==> data@[k] == spec_scripted_read(
                        self.script@,
                        step as int,
                        read_len as nat,
                    )[k],
            decreases read_len - i,
        {
            let b: u8 = if step < self.script.len() && i < self.script[step].data.len() {
                self.script[step].data[i]
            } else {
                0
            };
            data.push(b);
            kept.push(b);
            i = i + 1;
        }
        proof {
            assert(data@ =~= spec_scripted_read(self.script@, step as int, read_len as nat));
        }
        let rec = TransactionRecord { addr, written: bytes, read: kept, fault: None };
        let ghost tx = rec@;
        self.record.push(rec);
        proof {
            assert(self.history() =~= old(self).history().push(tx));
        }
        Ok(data)
    }
}

} // verus!
