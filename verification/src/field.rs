//! A field descriptor: a column name paired with its type.

use vstd::prelude::*;
use crate::dtype::DataType;

verus! {

/// A column label together with its declared type.
#[derive(Debug, Clone)]
pub struct Field {
    /// The column's name.
    pub name: String,
    /// The column's declared (possibly logical) type.
    pub dtype: DataType,
}

impl Field {
    /// Builds a field from a name and a type.
    pub fn new(name: String, dtype: DataType) -> (r: Field)
        ensures
            r.name@ == name@,
            r.dtype == dtype,
    {
        Field { name, dtype }
    }

    /// The same field with its type replaced by the physical counterpart.
    pub fn to_physical(&self) -> (r: Field)
        ensures
            r.name@ == self.name@,
            r.dtype == self.dtype.spec_to_physical(),
    {
        Field { name: self.name.clone(), dtype: self.dtype.to_physical() }
    }
}

} // verus!
