//! The four register banks.
use vstd::prelude::*;

verus! {

/// One of the four register banks.  Exactly one is selected at a time.
#[derive(Clone, Copy, Debug, PartialEq, Eq)]
pub enum Bank {
    Bank0,
    Bank1,
    Bank2,
    Bank3,
}

impl Bank {
    /// The number that selects this bank when written to the bank selector.
    pub open spec fn num(self) -> u8 {
        match self {
            Bank::Bank0 => 0,
            Bank::Bank1 => 1,
            Bank::Bank2 => 2,
            Bank::Bank3 => 3,
        }
    }

    pub fn get_num(&self) -> (n: u8)
        ensures
            n == self.num(),
            n <= 3,
    {
        match self {
            Bank::Bank0 => 0,
            Bank::Bank1 => 1,
            Bank::Bank2 => 2,
            Bank::Bank3 => 3,
        }
    }
}

} // verus!
