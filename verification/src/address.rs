//! Ledger addresses.

use vstd::prelude::*;

use crate::table::Key;

verus! {

/// The address of an account or of a contract: 32 bytes, held as two big-endian halves.
#[derive(Copy, Clone, Debug, PartialEq, Eq, Structural)]
pub struct Address {
    /// Whether the address names a contract rather than an account.
    pub contract: bool,
    pub high: u128,
    pub low: u128,
}

impl View for Address {
    type V = Address;

    open spec fn view(&self) -> Address {
        *self
    }
}

impl Key for Address {
    fn same(&self, other: &Self) -> (r: bool) {
        *self == *other
    }
}

} // verus!
