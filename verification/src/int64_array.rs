//! The primitive physical array: a buffer of 64-bit integers with an
//! optional validity sequence.

use vstd::prelude::*;
use crate::dtype::DataType;
use crate::error::DaftError;
use crate::field::Field;

verus! {

/// A column of 64-bit integers.  A missing validity sequence means every
/// slot is valid; otherwise slot `i` is null when `validity[i]` is false.
#[derive(Debug, Clone)]
pub struct Int64Array {
    /// The column's name and declared type.
    pub field: Field,
    /// One stored value per slot; the value of a null slot carries no meaning.
    pub values: Vec<i64>,
    /// Which slots hold a value; absent when all do.
    pub validity: Option<Vec<bool>>,
}

impl Int64Array {
    /// Structural invariant: the declared type is stored as `Int64` and the
    /// validity sequence, when present, covers every slot.
    pub open spec fn wf(self) -> bool {
        &&& self.field.dtype.spec_to_physical() == DataType::Int64
        &&& match self.validity {
            Some(v) => v@.len() == self.values@.len(),
            None => true,
        }
    }

    /// Whether slot `i` holds a value.
    pub open spec fn spec_valid_at(self, i: int) -> bool {
        match self.validity {
            Some(v) => v@[i],
            None => true,
        }
    }

    /// Builds an array from its parts.  Succeeds exactly when the declared
    /// type is stored as `Int64` and a given validity sequence covers every
    /// slot.
    pub fn new(field: Field, values: Vec<i64>, validity: Option<Vec<bool>>) -> (r: Result<
        Int64Array,
        DaftError,
    >)
        ensures
            r is Ok <==> {
                &&& field.dtype.spec_to_physical() == DataType::Int64
                &&& match validity {
                    Some(v) => v@.len() == values@.len(),
                    None => true,
                }
            },
            r matches Ok(a) ==> {
                &&& a.wf()
                &&& a.field == field
                &&& a.values == values
                &&& a.validity == validity
            },
    {
        let mut ok: bool = true;
        match &field.dtype.to_physical() {
            DataType::Int64 => {},
            _ => {
                ok = false;
            },
        }
        match &validity {
            Some(v) => {
                if v.len() != values.len() {
                    ok = false;
                }
            },
            None => {},
        }
        if ok {
            Ok(Int64Array { field, values, validity })
        } else {
            Err(DaftError::TypeError(String::from_str("integer array parts do not agree")))
        }
    }

    /// The number of slots.
    pub fn len(&self) -> (r: usize)
        ensures
            r == self@.len(),
    {
        self.values.len()
    }

    /// The element at slot `i`: its value, or `None` when the slot is null.
    pub fn get(&self, i: usize) -> (r: Option<i64>)
        requires
            self.wf(),
            i < self@.len(),
        ensures
            r == self@[i as int],
    {
        let valid = match &self.validity {
            Some(v) => *v.get(i).unwrap(),
            None => true,
        };
        if valid {
            Some(*self.values.get(i).unwrap())
        } else {
            None
        }
    }

    /// The column's name.
    pub fn name(&self) -> (r: &String)
        ensures
            r@ == self.field.name@,
    {
        &self.field.name
    }
}

impl View for Int64Array {
    type V = Seq<Option<i64>>;

    /// The array as a sequence of optional values: `None` at null slots.
    open spec fn view(&self) -> Seq<Option<i64>> {
        Seq::new(
            self.values@.len(),
            |i: int|
                if self.spec_valid_at(i) {
                    Some(self.values@[i])
                } else {
                    None
                },
        )
    }
}

} // verus!
