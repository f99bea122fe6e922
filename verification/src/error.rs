//! What can go wrong.
use vstd::prelude::*;

verus! {

/// Failure of a driver operation.
///
/// The two transport causes stay apart: `Comm` carries what the bus
/// reported, `Pin` what the chip-select line reported.
#[derive(Debug)]
pub enum Error<CommE, PinE> {
    /// A bus transfer failed.
    Comm(CommE),
    /// Driving the chip-select line failed.
    Pin(PinE),
    /// The device kept its reset bit set through every reading.
    Unresponsive,
    /// The identity register did not hold the expected value.
    InvalidID,
}

/// `r` reports `fault`: it is that failure if there is one, and a success if
/// there is none.
pub open spec fn reports<T, E>(r: Result<T, E>, fault: Option<E>) -> bool {
    match fault {
        Some(e) => r == Err::<T, E>(e),
        None => r is Ok,
    }
}

} // verus!
