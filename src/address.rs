use vstd::prelude::*;

verus! {

/// An account or contract identifier on the ledger.
#[derive(Clone, Copy, Debug, PartialEq, Eq, Hash, Structural)]
pub struct Address {
    pub id: u64,
}

impl Address {
    pub fn new(id: u64) -> (r: Address)
        ensures
            r.id == id,
    {
        Address { id }
    }
}

} // verus!
