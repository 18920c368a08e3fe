//! Identifiers of accounts and of committed transfers.

use vstd::prelude::*;

verus! {

/// The identity of an account holder: the 128 bits of its unique id.
#[derive(Clone, Copy, Debug, PartialEq, Eq, Structural)]
pub struct UserId {
    pub value: u128,
}

/// The identity of a committed transfer: the 128 bits of its unique id.
#[derive(Clone, Copy, Debug, PartialEq, Eq, Structural)]
pub struct TransferId {
    pub value: u128,
}

impl UserId {
    pub fn new(value: u128) -> (r: UserId)
        ensures
            r.value == value,
    {
        UserId { value }
    }
}

impl TransferId {
    pub fn new(value: u128) -> (r: TransferId)
        ensures
            r.value == value,
    {
        TransferId { value }
    }
}

} // verus!
