//! Error taxonomy of the array core: recoverable, typed errors surfaced by
//! the conversion boundary and by builder finalization.

use vstd::prelude::*;

verus! {

/// A typed, recoverable error of the array core.
#[derive(Debug, Clone, PartialEq, Eq)]
pub enum DaftError {
    /// An argument value was rejected (for example a zero connection budget).
    ValueError(String),
    /// An external columnar layout disagrees with the declared type's
    /// required structure.
    TypeError(String),
    /// A fetch of remote data failed and the caller asked for the failure
    /// to be raised.
    IoError(String),
}

impl DaftError {
    /// A human-readable rendering of the error.
    pub fn message(&self) -> (r: String)
        ensures
            r@ == self.spec_message(),
    {
        match self {
            DaftError::ValueError(s) => s.clone(),
            DaftError::TypeError(s) => s.clone(),
            DaftError::IoError(s) => s.clone(),
        }
    }

    /// The message carried by the error, as a mathematical sequence.
    pub open spec fn spec_message(&self) -> Seq<char> {
        match self {
            DaftError::ValueError(s) => s@,
            DaftError::TypeError(s) => s@,
            DaftError::IoError(s) => s@,
        }
    }
}

} // verus!
