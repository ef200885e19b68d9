//! The error of the node agent's workload library.
use vstd::prelude::*;

verus! {

/// An error with a message.
#[derive(Debug)]
pub struct WorkloadError {
    details: String,
}

impl WorkloadError {
    pub closed spec fn spec_details(&self) -> Seq<char> {
        self.details@
    }

    pub fn new(msg: &str) -> (r: WorkloadError)
        ensures
            r.spec_details() == msg@,
    {
        WorkloadError { details: String::from_str(msg) }
    }

    /// The message, as `Display` writes it.
    pub fn details(&self) -> (r: String)
        ensures
            r@ == self.spec_details(),
    {
        self.details.clone()
    }
}

} // verus!
