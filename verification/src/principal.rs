//! Party identifiers. A principal is an opaque, authenticable identity
//! (payer, merchant, fee wallet, administrator) handed to the library by the
//! surrounding environment; the library only ever stores and compares them.

use vstd::prelude::*;

verus! {

/// An opaque party identifier, modelled as a plain numeric handle chosen by
/// the environment that authenticates the parties.
#[derive(Clone, Copy, Debug, PartialEq, Eq, Hash, Structural)]
pub struct Principal {
    pub id: u64,
}

impl Principal {
    /// Wraps an environment-chosen handle.
    pub fn new(id: u64) -> (r: Principal)
        ensures
            r.id == id,
    {
        Principal { id }
    }
}

} // verus!
