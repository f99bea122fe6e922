//! The reset protocol.
//!
//! A reset is asked for by setting the reset bit of the power management
//! register.  The device clears the bit when it is done.  The handle reads
//! the register until it sees the bit clear, pausing after each reading that
//! does not show it, and gives up after a fixed number of readings.  A
//! reading that fails counts as one that does not show the bit clear.
use vstd::prelude::*;
use crate::error::Error;
use crate::journal::Access;
use crate::journal::Request;
use crate::registers::PWR_RESET;
use crate::registers::REG_PWR_MGMT_1;
use crate::registers::RESET_ATTEMPTS;
use crate::registers::RESET_PAUSE_MS;

verus! {

/// Does this reading of the power management register show the reset bit
/// clear?
pub open spec fn reset_done<E>(reading: Result<u8, E>) -> bool {
    reading matches Ok(v) && v & PWR_RESET == 0
}

/// Tells whether a reading of the power management register shows the reset
/// bit clear.  A failed reading does not.
pub fn is_reset_done<E>(reading: &Result<u8, E>) -> (done: bool)
    ensures
        done == reset_done(*reading),
{
    match reading {
        Ok(v) => *v & PWR_RESET == 0,
        Err(_) => false,
    }
}

/// Is this access a reading that shows the reset bit clear?
pub open spec fn shows_reset_done<E>(op: Access<E>) -> bool {
    op matches Access::Read { addr, reply } && reset_done(reply)
}

/// `polls` is what the handle does while it waits for a reset: readings of
/// the power management register, each but the last followed by a pause.
/// It ends with the first reading that shows the reset bit clear, or with
/// the pause after the last reading allowed.
pub open spec fn polling<E>(polls: Seq<Access<E>>) -> bool {
    &&& 1 <= polls.len() <= 2 * RESET_ATTEMPTS
    &&& forall|i: int|
        0 <= i < polls.len() && i % 2 == 0 ==> (#[trigger] polls[i]).request() == Request::Read(
            REG_PWR_MGMT_1,
        )
    &&& forall|i: int|
        0 <= i < polls.len() && i % 2 == 1 ==> (#[trigger] polls[i]).request() == Request::Pause(
            RESET_PAUSE_MS,
        )
    &&& forall|i: int| 0 <= i < polls.len() - 1 ==> !shows_reset_done(#[trigger] polls[i])
    &&& polls.len() < 2 * RESET_ATTEMPTS ==> shows_reset_done(polls.last())
}

/// `ops` is one reset: the reset bit is set, and unless that failed, the
/// handle polls.
pub open spec fn reset_run<E>(ops: Seq<Access<E>>) -> bool {
    &&& ops.len() >= 1
    &&& ops[0].request() == Request::Write(REG_PWR_MGMT_1, PWR_RESET)
    &&& if ops[0].fault() is Some {
        ops.len() == 1
    } else {
        polling(ops.skip(1))
    }
}

/// The failure of a reset, if it failed: that of setting the reset bit, or
/// `Unresponsive` if no reading showed the bit clear.
pub open spec fn reset_fault<CommE, PinE>(ops: Seq<Access<Error<CommE, PinE>>>) -> Option<
    Error<CommE, PinE>,
>
    recommends
        reset_run(ops),
{
    if ops[0].fault() is Some {
        ops[0].fault()
    } else if shows_reset_done(ops.last()) {
        None
    } else {
        Some(Error::Unresponsive)
    }
}

/// What follows a first access is polling if, counted from that access,
/// readings and pauses take turns and only the last can show the reset bit
/// clear.
pub proof fn polling_from<E>(ops: Seq<Access<E>>)
    requires
        2 <= ops.len() <= 1 + 2 * RESET_ATTEMPTS,
        forall|i: int|
            1 <= i < ops.len() && i % 2 == 1 ==> (#[trigger] ops[i]).request() == Request::Read(
                REG_PWR_MGMT_1,
            ),
        forall|i: int|
            1 <= i < ops.len() && i % 2 == 0 ==> (#[trigger] ops[i]).request() == Request::Pause(
                RESET_PAUSE_MS,
            ),
        forall|i: int| 0 <= i < ops.len() - 1 ==> !shows_reset_done(#[trigger] ops[i]),
        ops.len() < 1 + 2 * RESET_ATTEMPTS ==> shows_reset_done(ops.last()),
    ensures
        polling(ops.skip(1)),
{
    let polls = ops.skip(1);
    assert forall|i: int| 0 <= i < polls.len() && i % 2 == 0 implies (#[trigger] polls[i]).request()
        == Request::Read(REG_PWR_MGMT_1) by {
        assert(polls[i] == ops[i + 1]);
    }
    assert forall|i: int| 0 <= i < polls.len() && i % 2 == 1 implies (#[trigger] polls[i]).request()
        == Request::Pause(RESET_PAUSE_MS) by {
        assert(polls[i] == ops[i + 1]);
    }
    assert forall|i: int| 0 <= i < polls.len() - 1 implies !shows_reset_done(
        #[trigger] polls[i],
    ) by {
        assert(polls[i] == ops[i + 1]);
    }
    assert(polls.last() == ops.last());
}

/// How many registers were read in `ops`.
pub open spec fn readings<E>(ops: Seq<Access<E>>) -> nat
    decreases ops.len(),
{
    if ops.len() == 0 {
        0
    } else {
        readings(ops.drop_last()) + if ops.last() is Read { 1nat } else { 0nat }
    }
}

/// How many pauses were made in `ops`.
pub open spec fn pauses<E>(ops: Seq<Access<E>>) -> nat
    decreases ops.len(),
{
    if ops.len() == 0 {
        0
    } else {
        pauses(ops.drop_last()) + if ops.last() is Pause { 1nat } else { 0nat }
    }
}

/// Where readings and pauses take turns, starting with a reading, each
/// makes up half of the whole, the readings the greater half.
proof fn count_turns<E>(polls: Seq<Access<E>>)
    requires
        forall|i: int| 0 <= i < polls.len() && i % 2 == 0 ==> (#[trigger] polls[i]) is Read,
        forall|i: int| 0 <= i < polls.len() && i % 2 == 1 ==> (#[trigger] polls[i]) is Pause,
    ensures
        readings(polls) == (polls.len() + 1) / 2,
        pauses(polls) == polls.len() / 2,
    decreases polls.len(),
{
    if polls.len() > 0 {
        let front = polls.drop_last();
        assert forall|i: int| 0 <= i < front.len() && i % 2 == 0 implies (#[trigger] front[i])
            is Read by {
            assert(front[i] == polls[i]);
        }
        assert forall|i: int| 0 <= i < front.len() && i % 2 == 1 implies (#[trigger] front[i])
            is Pause by {
            assert(front[i] == polls[i]);
        }
        count_turns(front);
        assert(polls.last() == polls[polls.len() - 1]);
    }
}

/// A device that never shows its reset bit clear is given up after exactly
/// the allowed number of readings, each followed by a pause, and the reset
/// fails with `Unresponsive`.  It makes no difference whether the readings
/// fail or show the bit set.
pub proof fn unresponsive_after_all_attempts<CommE, PinE>(ops: Seq<Access<Error<CommE, PinE>>>)
    requires
        reset_run(ops),
        ops[0].fault() is None,
        forall|i: int| 0 <= i < ops.len() ==> !shows_reset_done(#[trigger] ops[i]),
    ensures
        reset_fault(ops) == Some(Error::<CommE, PinE>::Unresponsive),
        ops.len() == 1 + 2 * RESET_ATTEMPTS,
        readings(ops) == RESET_ATTEMPTS,
        pauses(ops) == RESET_ATTEMPTS,
{
    let polls = ops.skip(1);
    assert(polls.last() == ops[ops.len() - 1]);
    assert(polls.len() == 2 * RESET_ATTEMPTS);
    polling_counts(ops);
}

/// In a reset whose reset bit was set, the readings are half of what
/// follows, rounded up, and the pauses half, rounded down: at most the
/// allowed number of either.
pub proof fn polling_counts<E>(ops: Seq<Access<E>>)
    requires
        reset_run(ops),
        ops[0].fault() is None,
    ensures
        readings(ops) == ops.len() / 2,
        pauses(ops) == (ops.len() - 1) / 2,
        1 <= readings(ops) <= RESET_ATTEMPTS,
        pauses(ops) <= RESET_ATTEMPTS,
    decreases ops.len(),
{
    let polls = ops.skip(1);
    assert forall|i: int| 0 <= i < polls.len() && i % 2 == 0 implies (#[trigger] polls[i])
        is Read by {
        assert(polls[i].request() == Request::Read(REG_PWR_MGMT_1));
    }
    assert forall|i: int| 0 <= i < polls.len() && i % 2 == 1 implies (#[trigger] polls[i])
        is Pause by {
        assert(polls[i].request() == Request::Pause(RESET_PAUSE_MS));
    }
    count_turns(polls);
    count_after_first(ops);
}

/// The first access of a reset is a write, so it adds to neither count.
proof fn count_after_first<E>(ops: Seq<Access<E>>)
    requires
        ops.len() >= 1,
        ops[0] is Write,
    ensures
        readings(ops) == readings(ops.skip(1)),
        pauses(ops) == pauses(ops.skip(1)),
    decreases ops.len(),
{
    if ops.len() == 1 {
        assert(readings(ops.drop_last()) == 0);
        assert(pauses(ops.drop_last()) == 0);
        assert(ops.last() == ops[0]);
        assert(ops.skip(1).len() == 0);
    } else {
        assert(ops.drop_last()[0] == ops[0]);
        count_after_first(ops.drop_last());
        assert(ops.drop_last().skip(1) =~= ops.skip(1).drop_last());
        assert(ops.skip(1).last() == ops.last());
    }
}

} // verus!
