//! A workload run by the node agent (a stand-in that only has an identifier).
use crate::ids::random_below;
use crate::net::{decimal, decimal_string};
use crate::proto::agent::Instance;
use vstd::prelude::*;

verus! {

/// Identifiers of stand-in workloads are the numbers below this one.
pub const MOCK_ID_BOUND: u32 = 666;

/// Whether `s` is the decimal text of a number below `MOCK_ID_BOUND`.
pub open spec fn is_mock_id(s: Seq<char>) -> bool {
    exists|n: nat| n < MOCK_ID_BOUND && s == decimal(n)
}

/// A workload, known by its identifier.
#[derive(Debug)]
pub struct Workload {
    id: String,
}

impl Workload {
    pub closed spec fn spec_id(&self) -> Seq<char> {
        self.id@
    }

    /// The workload's identifier.
    pub fn get_id(&self) -> (r: String)
        ensures
            r@ == self.spec_id(),
    {
        self.id.clone()
    }

    /// Creates the workload of `instance`; its identifier is a random number
    /// below `MOCK_ID_BOUND`, in decimal.
    pub fn create(instance: &Instance) -> (r: Workload)
        ensures
            is_mock_id(r.spec_id()),
    {
        let n: u32 = random_below(MOCK_ID_BOUND);
        let id = decimal_string(n as u64);
        assert(n < MOCK_ID_BOUND && id@ == decimal(n as nat));
        Workload { id }
    }
}

} // verus!
