//! A workload run by the node agent in the agent's workload library (a stand-in that only has an identifier).
use crate::ids::random_below;
use super::workload::{is_mock_id, MOCK_ID_BOUND};
use crate::net::{decimal, decimal_string};
use vstd::prelude::*;

verus! {

/// A workload, known by its identifier.
#[derive(Debug)]
pub struct Workload {
    id: String,
}

impl Workload {
    pub closed spec fn spec_id(&self) -> Seq<char> {
        self.id@
    }

    /// The workload's identifier.
    #[allow(non_snake_case)]
    pub fn getId(&self) -> (r: String)
        ensures
            r@ == self.spec_id(),
    {
        self.id.clone()
    }

    /// Creates a workload; its identifier is a random number
    /// below `MOCK_ID_BOUND`, in decimal.
    pub fn create() -> (r: Workload)
        ensures
            is_mock_id(r.spec_id()),
    {
        let n: u32 = random_below(MOCK_ID_BOUND);
        let id = decimal_string(n as u64);
        assert(n < MOCK_ID_BOUND && id@ == decimal(n as nat));
        Workload { id }
    }
}

} // verus!
