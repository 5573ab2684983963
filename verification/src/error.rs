use vstd::prelude::*;

verus! {

/// A failure raised by this crate itself: a builder missing a mandatory
/// field, or a retry call rejected because the circuit is open.
#[derive(Debug)]
pub struct Error {
    pub description: String,
}

impl Error {
    /// Builds an error carrying the given description.
    pub fn new(description: &str) -> (r: Error)
        ensures
            r.description@ == description@,
    {
        Error { description: description.to_owned() }
    }
}

} // verus!
