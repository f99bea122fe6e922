//! What happens on the wire, as a history of calls and answers.
use vstd::prelude::*;
use crate::error::Error;

verus! {

/// One call on the bus or on the chip-select line, with its answer.
pub enum WireEvent<CommE, PinE> {
    /// The chip-select line was driven low.
    Select(Result<(), PinE>),
    /// `sent` was exchanged for as many bytes; `reply` holds them.
    Transfer { sent: Seq<u8>, reply: Result<Seq<u8>, CommE> },
    /// `sent` was written and the incoming bytes discarded.
    Write { sent: Seq<u8>, outcome: Result<(), CommE> },
    /// The chip-select line was driven high.
    Deselect(Result<(), PinE>),
}

impl<CommE, PinE> WireEvent<CommE, PinE> {
    /// The failure this call reported, if it reported one.  The bus fails
    /// with `Comm`, the chip-select line with `Pin`.
    pub open spec fn fault(self) -> Option<Error<CommE, PinE>> {
        match self {
            WireEvent::Select(Err(e)) => Some(Error::Pin(e)),
            WireEvent::Deselect(Err(e)) => Some(Error::Pin(e)),
            WireEvent::Transfer { sent, reply: Err(e) } => Some(Error::Comm(e)),
            WireEvent::Write { sent, outcome: Err(e) } => Some(Error::Comm(e)),
            _ => None,
        }
    }

    /// Did this call move data?
    pub open spec fn is_exchange(self) -> bool {
        self is Transfer || self is Write
    }

    /// The bytes that this call handed to the bus.
    pub open spec fn sent(self) -> Seq<u8> {
        match self {
            WireEvent::Transfer { sent, reply } => sent,
            WireEvent::Write { sent, outcome } => sent,
            _ => Seq::empty(),
        }
    }

    /// The bytes that this call brought back.
    pub open spec fn received(self) -> Seq<u8> {
        match self {
            WireEvent::Transfer { sent, reply: Ok(bytes) } => bytes,
            _ => Seq::empty(),
        }
    }
}

/// The answer of a transfer: the bytes that the buffer holds afterwards, or
/// the failure.
pub open spec fn transfer_reply<CommE>(r: Result<(), CommE>, buffer: Seq<u8>) -> Result<
    Seq<u8>,
    CommE,
> {
    match r {
        Ok(()) => Ok(buffer),
        Err(e) => Err(e),
    }
}

/// How often the chip-select line was driven low in `events`.
pub open spec fn selects<CommE, PinE>(events: Seq<WireEvent<CommE, PinE>>) -> nat
    decreases events.len(),
{
    if events.len() == 0 {
        0
    } else {
        selects(events.drop_last()) + if events.last() is Select { 1nat } else { 0nat }
    }
}

/// How often the chip-select line was driven high in `events`.
pub open spec fn deselects<CommE, PinE>(events: Seq<WireEvent<CommE, PinE>>) -> nat
    decreases events.len(),
{
    if events.len() == 0 {
        0
    } else {
        deselects(events.drop_last()) + if events.last() is Deselect { 1nat } else { 0nat }
    }
}

/// How often data moved in `events`.
pub open spec fn exchanges<CommE, PinE>(events: Seq<WireEvent<CommE, PinE>>) -> nat
    decreases events.len(),
{
    if events.len() == 0 {
        0
    } else {
        exchanges(events.drop_last()) + if events.last().is_exchange() { 1nat } else { 0nat }
    }
}

/// `events` is one chip-select framed transaction: the line goes low, data
/// moves unless that failed, and the line goes high whatever happened
/// before.
pub open spec fn framed<CommE, PinE>(events: Seq<WireEvent<CommE, PinE>>) -> bool {
    &&& events.len() >= 2
    &&& events.first() is Select
    &&& events.last() is Deselect
    &&& if events.first().fault() is None {
        events.len() == 3 && events[1].is_exchange()
    } else {
        events.len() == 2
    }
}

/// The failure of a transaction, if it failed.  A line that could not be
/// driven is reported before a transfer that failed, and the first such
/// line failure before the second.
pub open spec fn transaction_fault<CommE, PinE>(events: Seq<WireEvent<CommE, PinE>>) -> Option<
    Error<CommE, PinE>,
>
    recommends
        framed(events),
{
    if events.first().fault() is Some {
        events.first().fault()
    } else if events.last().fault() is Some {
        events.last().fault()
    } else {
        events[1].fault()
    }
}

/// What a data phase and the release that followed it amount to.
pub open spec fn settled<T, CommE, PinE>(data: Result<T, CommE>, release: Result<(), PinE>) -> Result<
    T,
    Error<CommE, PinE>,
> {
    match release {
        Err(e) => Err(Error::Pin(e)),
        Ok(()) => match data {
            Err(e) => Err(Error::Comm(e)),
            Ok(t) => Ok(t),
        },
    }
}

/// Joins the answer of a data phase with the answer of the release that
/// followed it.  The release is judged first: its failure hides that of the
/// data phase.
pub fn settle<T, CommE, PinE>(data: Result<T, CommE>, release: Result<(), PinE>) -> (r: Result<
    T,
    Error<CommE, PinE>,
>)
    ensures
        r == settled(data, release),
{
    match release {
        Err(e) => Err(Error::Pin(e)),
        Ok(()) => match data {
            Err(e) => Err(Error::Comm(e)),
            Ok(t) => Ok(t),
        },
    }
}

/// In every transaction the chip-select line is driven low exactly once and
/// high exactly once, low first and high last, and data moves at most once,
/// in between.  This holds whatever the line and the bus answer.
pub proof fn framed_toggles_once<CommE, PinE>(events: Seq<WireEvent<CommE, PinE>>)
    requires
        framed(events),
    ensures
        selects(events) == 1,
        deselects(events) == 1,
        exchanges(events) <= 1,
        exchanges(events) == 1 <==> events.first().fault() is None,
        events.first() is Select,
        events.last() is Deselect,
{
    reveal_with_fuel(selects, 4);
    reveal_with_fuel(deselects, 4);
    reveal_with_fuel(exchanges, 4);
    let a = events.drop_last();
    assert(a.len() == events.len() - 1);
    assert(a.first() == events.first());
    if events.len() == 3 {
        let b = a.drop_last();
        assert(a.last() == events[1]);
        assert(b.len() == 1);
        assert(b.last() == events.first());
        assert(b.drop_last().len() == 0);
    } else {
        assert(a.last() == events.first());
        assert(a.drop_last().len() == 0);
    }
}

} // verus!
