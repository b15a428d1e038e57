//! The nested physical array: variable-length lists of optional integers,
//! cut out of one child buffer by an offsets sequence, with an optional
//! validity sequence over the lists themselves.

use vstd::prelude::*;
use crate::binary_array::offsets_well_formed;
use crate::dtype::DataType;
use crate::error::DaftError;
use crate::field::Field;

verus! {

/// A child buffer as a sequence of optional values: `None` where the child
/// slot is null.
pub open spec fn child_elems(values: Seq<i64>, validity: Seq<bool>) -> Seq<Option<i64>> {
    Seq::new(
        values.len(),
        |i: int|
            if validity[i] {
                Some(values[i])
            } else {
                None
            },
    )
}

/// A column of lists.  Element `i` is the child run
/// `child[offsets[i] .. offsets[i + 1]]`, itself a sequence of optional
/// values.
pub struct ListArray {
    /// The column's name and declared type.
    pub field: Field,
    /// The concatenated child values of every list; the value of a null
    /// child slot carries no meaning.
    pub child_values: Vec<i64>,
    /// Which child slots hold a value.
    pub child_validity: Vec<bool>,
    /// One more entry than there are lists; monotone, starting at zero and
    /// ending at the child length.
    pub offsets: Vec<i64>,
    /// Which lists are present; absent when all are.
    pub validity: Option<Vec<bool>>,
}

impl ListArray {
    /// Structural invariant: the declared type is stored as `List`, the
    /// child halves agree in length, the offsets cut the child buffer, and
    /// the validity sequence, when present, covers every list.
    pub open spec fn wf(self) -> bool {
        &&& self.field.dtype.spec_to_physical() == DataType::List
        &&& self.child_validity@.len() == self.child_values@.len()
        &&& offsets_well_formed(self.offsets@, self.child_values@.len())
        &&& match self.validity {
            Some(v) => v@.len() == self.offsets@.len() - 1,
            None => true,
        }
    }

    /// Whether list `i` is present.
    pub open spec fn spec_valid_at(self, i: int) -> bool {
        match self.validity {
            Some(v) => v@[i],
            None => true,
        }
    }

    /// Builds an array from a child buffer and offsets, all lists present.
    /// Succeeds exactly when the child halves agree in length and the
    /// offsets cut the child buffer.
    pub fn try_new(
        name: &str,
        child_values: Vec<i64>,
        child_validity: Vec<bool>,
        offsets: Vec<i64>,
    ) -> (r: Result<ListArray, DaftError>)
        ensures
            r is Ok <==> (child_validity@.len() == child_values@.len() && offsets_well_formed(
                offsets@,
                child_values@.len(),
            )),
            r matches Ok(a) ==> {
                &&& a.wf()
                &&& a.field.name@ == name@
                &&& a.field.dtype == DataType::List
                &&& a.child_values == child_values
                &&& a.child_validity == child_validity
                &&& a.offsets == offsets
                &&& a.validity is None
            },
    {
        if child_validity.len() != child_values.len() {
            return Err(
                DaftError::TypeError(
                    String::from_str("child validity length must match the child values"),
                ),
            );
        }
        if offsets.len() == 0 {
            return Err(DaftError::TypeError(String::from_str("offsets must not be empty")));
        }
        if *offsets.get(0).unwrap() != 0 {
            return Err(DaftError::TypeError(String::from_str("offsets must start at zero")));
        }
        if child_values.len() as u64 > i64::MAX as u64 || *offsets.get(offsets.len() - 1).unwrap()
            != child_values.len() as i64 {
            return Err(
                DaftError::TypeError(String::from_str("offsets must end at the child length")),
            );
        }
        let mut i: usize = 0;
        while i < offsets.len()
            invariant
                i <= offsets@.len(),
                offsets@.len() >= 1,
                child_values@.len() <= i64::MAX,
                forall|k: int| 0 <= k < i ==> 0 <= #[trigger] offsets@[k] <= child_values@.len(),
                forall|k: int|
                    0 <= k < i && k + 1 < offsets@.len() ==> #[trigger] offsets@[k] <= offsets@[k
                        + 1],
            decreases offsets@.len() - i,
        {
            let o = *offsets.get(i).unwrap();
            if o < 0 || o > child_values.len() as i64 {
                return Err(
                    DaftError::TypeError(String::from_str("offset outside the child buffer")),
                );
            }
            if i + 1 < offsets.len() && o > *offsets.get(i + 1).unwrap() {
                return Err(DaftError::TypeError(String::from_str("offsets must not decrease")));
            }
            i = i + 1;
        }
        let field = Field::new(name.to_string(), DataType::List);
        Ok(ListArray { field, child_values, child_validity, offsets, validity: None })
    }

    /// The same array with the given validity sequence over its lists.
    /// Succeeds exactly when the sequence covers every list.
    pub fn with_validity(self, validity: Vec<bool>) -> (r: Result<ListArray, DaftError>)
        requires
            self.wf(),
        ensures
            r is Ok <==> validity@.len() == self.offsets@.len() - 1,
            r matches Ok(a) ==> {
                &&& a.wf()
                &&& a.field == self.field
                &&& a.child_values == self.child_values
                &&& a.child_validity == self.child_validity
                &&& a.offsets == self.offsets
                &&& a.validity == Some(validity)
            },
    {
        if validity.len() != self.offsets.len() - 1 {
            return Err(
                DaftError::TypeError(String::from_str("validity length must match the list count")),
            );
        }
        Ok(
            ListArray {
                field: self.field,
                child_values: self.child_values,
                child_validity: self.child_validity,
                offsets: self.offsets,
                validity: Some(validity),
            },
        )
    }

    /// The number of lists.
    pub fn len(&self) -> (r: usize)
        requires
            self.wf(),
        ensures
            r == self@.len(),
    {
        self.offsets.len() - 1
    }

    /// The list at slot `i`: its optional values, or `None` when the list
    /// itself is null.
    pub fn get(&self, i: usize) -> (r: Option<Vec<Option<i64>>>)
        requires
            self.wf(),
            i < self@.len(),
        ensures
            r matches Some(v) ==> self@[i as int] == Some(v@),
            r is None <==> self@[i as int] is None,
    {
        let valid = match &self.validity {
            Some(v) => *v.get(i).unwrap(),
            None => true,
        };
        if !valid {
            return None;
        }
        let clen: usize = self.child_values.len();
        assert(0 <= self.offsets@[i as int] <= self.offsets@[i as int + 1] <= clen);
        let lo = *self.offsets.get(i).unwrap() as usize;
        let hi = *self.offsets.get(i + 1).unwrap() as usize;
        let mut out: Vec<Option<i64>> = Vec::with_capacity(hi - lo);
        let mut k: usize = lo;
        while k < hi
            invariant
                lo <= k <= hi,
                hi <= self.child_values@.len(),
                self.child_validity@.len() == self.child_values@.len(),
                out@ =~= child_elems(self.child_values@, self.child_validity@).subrange(
                    lo as int,
                    k as int,
                ),
            decreases hi - k,
        {
            if *self.child_validity.get(k).unwrap() {
                out.push(Some(*self.child_values.get(k).unwrap()));
            } else {
                out.push(None);
            }
            k = k + 1;
            assert(out@ =~= child_elems(self.child_values@, self.child_validity@).subrange(
                lo as int,
                k as int,
            ));
        }
        Some(out)
    }

    /// The column's name.
    pub fn name(&self) -> (r: &String)
        ensures
            r@ == self.field.name@,
    {
        &self.field.name
    }
}

impl View for ListArray {
    type V = Seq<Option<Seq<Option<i64>>>>;

    /// The array as a sequence of optional lists of optional values:
    /// `None` at null lists.
    open spec fn view(&self) -> Seq<Option<Seq<Option<i64>>>> {
        Seq::new(
            (self.offsets@.len() - 1) as nat,
            |i: int|
                if self.spec_valid_at(i) {
                    Some(
                        child_elems(self.child_values@, self.child_validity@).subrange(
                            self.offsets@[i] as int,
                            self.offsets@[i + 1] as int,
                        ),
                    )
                } else {
                    None
                },
        )
    }
}

} // verus!
