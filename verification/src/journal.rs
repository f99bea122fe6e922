//! What the device handle asks of its sensor interface, as a history of
//! requests and answers.
use vstd::prelude::*;
use crate::registers::REG_BANK_SEL;

verus! {

/// One thing asked of the sensor interface or of the delay source.
pub enum Request {
    /// Read the register at the address.
    Read(u8),
    /// Store the value (second) in the register at the address (first).
    Write(u8, u8),
    /// Read the six registers from the address on as three values.
    ReadVector(u8),
    /// Wait for so many milliseconds.
    Pause(u8),
}

/// One request made by the device handle, with its answer.
pub enum Access<E> {
    /// A register was read.
    Read { addr: u8, reply: Result<u8, E> },
    /// A register was written.
    Write { addr: u8, val: u8, outcome: Result<(), E> },
    /// Six registers were read as one sample.
    ReadVector { base: u8, sample: Result<[i16; 3], E> },
    /// The handle waited.
    Pause { ms: u8 },
}

impl<E> Access<E> {
    /// What was asked.
    pub open spec fn request(self) -> Request {
        match self {
            Access::Read { addr, reply } => Request::Read(addr),
            Access::Write { addr, val, outcome } => Request::Write(addr, val),
            Access::ReadVector { base, sample } => Request::ReadVector(base),
            Access::Pause { ms } => Request::Pause(ms),
        }
    }

    /// The failure that was answered, if one was.
    pub open spec fn fault(self) -> Option<E> {
        match self {
            Access::Read { addr, reply: Err(e) } => Some(e),
            Access::Write { addr, val, outcome: Err(e) } => Some(e),
            Access::ReadVector { base, sample: Err(e) } => Some(e),
            _ => None,
        }
    }

    /// Did this access put a new value in the bank selector?
    pub open spec fn selects_bank(self) -> bool {
        self.request() matches Request::Write(addr, val) && addr == REG_BANK_SEL && self.fault()
            is None
    }

    /// The value that this access wrote, if it was a write.
    pub open spec fn written(self) -> u8 {
        match self {
            Access::Write { addr, val, outcome } => val,
            _ => 0,
        }
    }

    /// The value that this access read, if it was a read that succeeded.
    pub open spec fn value(self) -> u8 {
        match self {
            Access::Read { addr, reply: Ok(v) } => v,
            _ => 0,
        }
    }
}

/// The number most recently stored in the bank selector, going by a
/// history: the bank that the device has selected, as far as the handle
/// can know.  `None` while nothing was stored.
pub open spec fn selected_bank<E>(journal: Seq<Access<E>>) -> Option<u8>
    decreases journal.len(),
{
    if journal.len() == 0 {
        None
    } else if journal.last().selects_bank() {
        Some(journal.last().written())
    } else {
        selected_bank(journal.drop_last())
    }
}

/// `ops` carries out `plan` from its start, in order, and stops after the
/// first request that fails.  `plan` is not empty.
pub open spec fn follows<E>(ops: Seq<Access<E>>, plan: Seq<Request>) -> bool {
    &&& 0 < ops.len() <= plan.len()
    &&& forall|i: int| 0 <= i < ops.len() ==> (#[trigger] ops[i]).request() == plan[i]
    &&& forall|i: int| 0 <= i < ops.len() - 1 ==> (#[trigger] ops[i]).fault() is None
    &&& ops.len() < plan.len() ==> ops.last().fault() is Some
}

/// One more access extends a history; the selected bank changes exactly
/// when that access stored a bank number.
pub proof fn selected_bank_after<E>(journal: Seq<Access<E>>, op: Access<E>)
    ensures
        selected_bank(journal.push(op)) == if op.selects_bank() {
            Some(op.written())
        } else {
            selected_bank(journal)
        },
{
    assert(journal.push(op).drop_last() =~= journal);
}

} // verus!
