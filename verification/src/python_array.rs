//! The foreign-object physical array: a column of opaque, reference-counted
//! handles where null is represented by the runtime's sentinel object.

use vstd::prelude::*;
use crate::dtype::DataType;
use crate::error::DaftError;
use crate::field::Field;
use crate::python_object::{py_clone, py_is_none, py_obj_is_none};

verus! {

/// A column of foreign-object handles.  A slot is null exactly when its
/// handle refers to the sentinel object, and the validity sequence, when
/// present, records the same fact.
pub struct PythonArray {
    /// The column's name and declared type.
    pub field: Field,
    /// One handle per slot; a null slot holds the sentinel.
    pub values: Vec<pyo3::Py<pyo3::PyAny>>,
    /// Which slots hold a non-sentinel object; absent when all do.
    pub validity: Option<Vec<bool>>,
}

impl PythonArray {
    /// Whether slot `i` is recorded as holding a value.
    pub open spec fn spec_valid_at(self, i: int) -> bool {
        match self.validity {
            Some(v) => v@[i],
            None => true,
        }
    }

    /// Structural invariant: the declared type is the foreign-object kind,
    /// the validity sequence covers every slot, and a slot is recorded
    /// valid exactly when its handle is not the sentinel.
    pub open spec fn wf(self) -> bool {
        &&& self.field.dtype == DataType::Python
        &&& match self.validity {
            Some(v) => v@.len() == self.values@.len(),
            None => true,
        }
        &&& forall|i: int|
            0 <= i < self.values@.len() ==> (self.spec_valid_at(i) <==> !py_is_none(
                #[trigger] self.values@[i],
            ))
    }

    /// The array as a sequence of optional handles: `None` at slots holding
    /// the sentinel.
    pub open spec fn opt_view(self) -> Seq<Option<pyo3::Py<pyo3::PyAny>>> {
        Seq::new(
            self.values@.len(),
            |i: int|
                if py_is_none(self.values@[i]) {
                    None
                } else {
                    Some(self.values@[i])
                },
        )
    }

    /// Builds an array from a drained handle buffer, deriving each slot's
    /// validity from whether its handle is the sentinel.  Succeeds exactly
    /// when the declared type is the foreign-object kind.
    pub fn new(field: Field, values: Vec<pyo3::Py<pyo3::PyAny>>) -> (r: Result<
        PythonArray,
        DaftError,
    >)
        ensures
            r is Ok <==> field.dtype == DataType::Python,
            r matches Ok(a) ==> {
                &&& a.wf()
                &&& a.field == field
                &&& a.values@ == values@
            },
    {
        match field.dtype {
            DataType::Python => {},
            _ => {
                return Err(
                    DaftError::TypeError(
                        String::from_str("object array requires the foreign-object type"),
                    ),
                );
            },
        }
        let mut validity: Vec<bool> = Vec::with_capacity(values.len());
        let mut i: usize = 0;
        while i < values.len()
            invariant
                i <= values@.len(),
                validity@.len() == i as nat,
                forall|k: int|
                    0 <= k < i ==> (validity@[k] <==> !py_is_none(#[trigger] values@[k])),
            decreases values@.len() - i,
        {
            let is_null = py_obj_is_none(values.get(i).unwrap());
            validity.push(!is_null);
            i = i + 1;
        }
        Ok(PythonArray { field, values, validity: Some(validity) })
    }

    /// The number of slots.
    pub fn len(&self) -> (r: usize)
        ensures
            r == self.values@.len(),
    {
        self.values.len()
    }

    /// A fresh handle to the object at slot `i` (raising its reference
    /// count by one).
    pub fn get(&self, i: usize) -> (r: pyo3::Py<pyo3::PyAny>)
        requires
            i < self.values@.len(),
        ensures
            r == self.values@[i as int],
    {
        py_clone(self.values.get(i).unwrap())
    }

    /// The column's name.
    pub fn name(&self) -> (r: &String)
        ensures
            r@ == self.field.name@,
    {
        &self.field.name
    }
}

} // verus!
