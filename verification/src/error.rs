//! The error type used by the parsing helpers of this crate.

use vstd::prelude::*;

verus! {

/// Error type holding a human-readable description.
#[derive(Debug)]
pub struct StringError(pub String);

impl StringError {
    /// The description carried by this error.
    pub fn message(&self) -> (r: &String)
        ensures
            r@ == self.0@,
    {
        &self.0
    }
}

} // verus!
