//! The logical array wrapper: a field with a logical type over a physical
//! array of the type's physical counterpart.

use vstd::prelude::*;
use crate::field::Field;
use crate::int64_array::Int64Array;

verus! {

/// A physical array annotated with a logical type.  The wrapper owns its
/// physical payload; the payload's field carries the wrapper's name and
/// the logical type's physical counterpart.
pub struct LogicalDataArray {
    /// The wrapper's name and logical type.
    pub field: Field,
    /// The underlying physical storage.
    pub physical: Int64Array,
}

impl LogicalDataArray {
    /// Structural invariant: the declared type is logical, the payload is
    /// well formed, and the payload's field is the wrapper's name with the
    /// logical type's physical counterpart.
    pub open spec fn wf(self) -> bool {
        &&& !self.field.dtype.spec_is_physical()
        &&& self.physical.wf()
        &&& self.physical.field.name@ == self.field.name@
        &&& self.physical.field.dtype == self.field.dtype.spec_to_physical()
    }

    /// Wraps a physical array with a logical field.  Callable only with a
    /// payload already converted against the field's physical counterpart.
    pub fn new(field: Field, physical: Int64Array) -> (r: LogicalDataArray)
        requires
            !field.dtype.spec_is_physical(),
            physical.wf(),
            physical.field.name@ == field.name@,
            physical.field.dtype == field.dtype.spec_to_physical(),
        ensures
            r.wf(),
            r.field == field,
            r.physical == physical,
    {
        LogicalDataArray { field, physical }
    }

    /// The number of slots.
    pub fn len(&self) -> (r: usize)
        ensures
            r == self.physical@.len(),
    {
        self.physical.len()
    }

    /// The column's name.
    pub fn name(&self) -> (r: &String)
        ensures
            r@ == self.field.name@,
    {
        &self.field.name
    }
}

} // verus!
