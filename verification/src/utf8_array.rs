//! The string physical array: one owned string per slot with an optional
//! validity sequence.

use vstd::prelude::*;
use crate::dtype::DataType;
use crate::error::DaftError;
use crate::field::Field;

verus! {

/// A column of UTF-8 strings.  A missing validity sequence means every
/// slot is valid; otherwise slot `i` is null when `validity[i]` is false.
pub struct Utf8Array {
    /// The column's name and declared type.
    pub field: Field,
    /// One stored string per slot; the string of a null slot carries no
    /// meaning.
    pub values: Vec<String>,
    /// Which slots hold a value; absent when all do.
    pub validity: Option<Vec<bool>>,
}

impl Utf8Array {
    /// Structural invariant: the declared type is stored as `Utf8` and the
    /// validity sequence, when present, covers every slot.
    pub open spec fn wf(self) -> bool {
        &&& self.field.dtype.spec_to_physical() == DataType::Utf8
        &&& match self.validity {
            Some(v) => v@.len() == self.values@.len(),
            None => true,
        }
    }

    /// Whether slot `i` holds a value.
    pub open spec fn spec_valid_at(self, i: int) -> bool {
        match self.validity {
            Some(v) => v@[i],
            None => true,
        }
    }

    /// Builds an array from its parts.  Succeeds exactly when the declared
    /// type is stored as `Utf8` and a given validity sequence covers every
    /// slot.
    pub fn new(field: Field, values: Vec<String>, validity: Option<Vec<bool>>) -> (r: Result<
        Utf8Array,
        DaftError,
    >)
        ensures
            r is Ok <==> {
                &&& field.dtype.spec_to_physical() == DataType::Utf8
                &&& match validity {
                    Some(v) => v@.len() == values@.len(),
                    None => true,
                }
            },
            r matches Ok(a) ==> {
                &&& a.wf()
                &&& a.field == field
                &&& a.values == values
                &&& a.validity == validity
            },
    {
        let mut ok: bool = true;
        match &field.dtype.to_physical() {
            DataType::Utf8 => {},
            _ => {
                ok = false;
            },
        }
        match &validity {
            Some(v) => {
                if v.len() != values.len() {
                    ok = false;
                }
            },
            None => {},
        }
        if ok {
            Ok(Utf8Array { field, values, validity })
        } else {
            Err(DaftError::TypeError(String::from_str("string array parts do not agree")))
        }
    }

    /// The number of slots.
    pub fn len(&self) -> (r: usize)
        ensures
            r == self@.len(),
    {
        self.values.len()
    }

    /// The element at slot `i`: a copy of its string, or `None` when the
    /// slot is null.
    pub fn get(&self, i: usize) -> (r: Option<String>)
        requires
            self.wf(),
            i < self@.len(),
        ensures
            r matches Some(s) ==> self@[i as int] == Some(s@),
            r is None <==> self@[i as int] is None,
    {
        let valid = match &self.validity {
            Some(v) => *v.get(i).unwrap(),
            None => true,
        };
        if valid {
            Some(self.values.get(i).unwrap().clone())
        } else {
            None
        }
    }

    /// The column's name.
    pub fn name(&self) -> (r: &String)
        ensures
            r@ == self.field.name@,
    {
        &self.field.name
    }
}

impl View for Utf8Array {
    type V = Seq<Option<Seq<char>>>;

    /// The array as a sequence of optional strings: `None` at null slots.
    open spec fn view(&self) -> Seq<Option<Seq<char>>> {
        Seq::new(
            self.values@.len(),
            |i: int|
                if self.spec_valid_at(i) {
                    Some(self.values@[i]@)
                } else {
                    None
                },
        )
    }
}

} // verus!
