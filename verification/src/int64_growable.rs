//! The growable builder for the primitive integer representation: assembles
//! a new `Int64Array` from slices of borrowed source arrays and runs of
//! nulls.

use vstd::prelude::*;
use crate::dtype::DataType;
use crate::error::DaftError;
use crate::field::Field;
use crate::growable::{apply_op, GrowOp};
use crate::int64_array::Int64Array;

verus! {

/// A builder over borrowed integer source arrays.  It accumulates values
/// and validity flags, and is drained by `build`.
pub struct Int64Growable<'a> {
    /// The name the built array will bear.
    pub name: String,
    /// The type the built array will bear; stored as `Int64`.
    pub dtype: DataType,
    /// The borrowed sources that `extend` may copy from.
    pub arr_refs: Vec<&'a Int64Array>,
    /// Accumulated values; the value of a null slot carries no meaning.
    pub values: Vec<i64>,
    /// Accumulated validity flags, one per accumulated value.
    pub validity: Vec<bool>,
}

impl<'a> Int64Growable<'a> {
    /// Structural invariant: the buffer's two halves agree in length, the
    /// target type is stored as `Int64`, and every source is well formed.
    pub open spec fn wf(self) -> bool {
        &&& self.values@.len() == self.validity@.len()
        &&& self.dtype.spec_to_physical() == DataType::Int64
        &&& forall|i: int| 0 <= i < self.arr_refs@.len() ==> (#[trigger] self.arr_refs@[i]).wf()
    }

    /// The sources as sequences of optional values.
    pub open spec fn sources(self) -> Seq<Seq<Option<i64>>> {
        Seq::new(self.arr_refs@.len(), |i: int| self.arr_refs@[i]@)
    }

    /// The accumulation buffer as a sequence of optional values.
    pub open spec fn buffered(self) -> Seq<Option<i64>> {
        Seq::new(
            self.values@.len(),
            |i: int|
                if self.validity@[i] {
                    Some(self.values@[i])
                } else {
                    None
                },
        )
    }

    /// Creates a builder with an empty buffer.  The capacity is a
    /// pre-allocation hint only.
    pub fn new(
        name: String,
        dtype: &DataType,
        arr_refs: Vec<&'a Int64Array>,
        capacity: usize,
    ) -> (r: Int64Growable<'a>)
        requires
            dtype.spec_to_physical() == DataType::Int64,
            forall|i: int| 0 <= i < arr_refs@.len() ==> (#[trigger] arr_refs@[i]).wf(),
        ensures
            r.wf(),
            r.name@ == name@,
            r.dtype == *dtype,
            r.arr_refs == arr_refs,
            r.buffered().len() == 0,
    {
        Int64Growable {
            name,
            dtype: *dtype,
            arr_refs,
            values: Vec::with_capacity(capacity),
            validity: Vec::with_capacity(capacity),
        }
    }

    /// Appends `len` elements of source `index`, starting at `start`,
    /// preserving each element's validity flag.
    pub fn extend(&mut self, index: usize, start: usize, len: usize)
        requires
            old(self).wf(),
            index < old(self).arr_refs@.len(),
            start + len <= old(self).sources()[index as int].len(),
        ensures
            final(self).wf(),
            final(self).name@ == old(self).name@,
            final(self).dtype == old(self).dtype,
            final(self).arr_refs == old(self).arr_refs,
            final(self).buffered() == apply_op(
                old(self).sources(),
                old(self).buffered(),
                GrowOp::Extend { index, start, len },
            ),
    {
        let arr: &Int64Array = *self.arr_refs.get(index).unwrap();
        let n: usize = arr.len();
        let mut j: usize = 0;
        while j < len
            invariant
                self.wf(),
                j <= len,
                index < old(self).arr_refs@.len(),
                arr == old(self).arr_refs@[index as int],
                arr.wf(),
                n == arr@.len(),
                start + len <= n,
                self.name@ == old(self).name@,
                self.dtype == old(self).dtype,
                self.arr_refs == old(self).arr_refs,
                self.buffered() =~= old(self).buffered() + arr@.subrange(
                    start as int,
                    start + j,
                ),
            decreases len - j,
        {
            let ghost prev = self.buffered();
            match arr.get(start + j) {
                Some(v) => {
                    self.values.push(v);
                    self.validity.push(true);
                },
                None => {
                    self.values.push(0);
                    self.validity.push(false);
                },
            }
            proof {
                assert(self.buffered() =~= prev.push(arr@[start + j]));
                assert(arr@.subrange(start as int, start + j + 1) =~= arr@.subrange(
                    start as int,
                    start + j,
                ).push(arr@[start + j]));
            }
            j = j + 1;
            assert(self.buffered() =~= old(self).buffered() + arr@.subrange(
                start as int,
                start + j,
            ));
        }
        assert(self.buffered() =~= apply_op(
            old(self).sources(),
            old(self).buffered(),
            GrowOp::Extend { index, start, len },
        ));
    }

    /// Appends `additional` null elements, independent of any source.
    pub fn add_nulls(&mut self, additional: usize)
        requires
            old(self).wf(),
        ensures
            final(self).wf(),
            final(self).name@ == old(self).name@,
            final(self).dtype == old(self).dtype,
            final(self).arr_refs == old(self).arr_refs,
            final(self).buffered() == apply_op(
                old(self).sources(),
                old(self).buffered(),
                GrowOp::AddNulls { count: additional },
            ),
    {
        let mut j: usize = 0;
        while j < additional
            invariant
                self.wf(),
                j <= additional,
                self.name@ == old(self).name@,
                self.dtype == old(self).dtype,
                self.arr_refs == old(self).arr_refs,
                self.buffered() =~= old(self).buffered() + Seq::new(j as nat, |i: int| None),
            decreases additional - j,
        {
            let ghost prev = self.buffered();
            self.values.push(0);
            self.validity.push(false);
            proof {
                assert(self.buffered() =~= prev.push(None));
            }
            j = j + 1;
            assert(self.buffered() =~= old(self).buffered() + Seq::new(j as nat, |i: int| None));
        }
        assert(self.buffered() =~= apply_op(
            old(self).sources(),
            old(self).buffered(),
            GrowOp::AddNulls { count: additional },
        ));
    }

    /// Drains the accumulated elements into a new owned array bearing the
    /// builder's declared name and type; the builder's buffer is left empty.
    pub fn build(&mut self) -> (r: Result<Int64Array, DaftError>)
        requires
            old(self).wf(),
        ensures
            r is Ok,
            r matches Ok(a) ==> {
                &&& a.wf()
                &&& a@ == old(self).buffered()
                &&& a.field.name@ == old(self).name@
                &&& a.field.dtype == old(self).dtype
            },
            final(self).wf(),
            final(self).buffered().len() == 0,
            final(self).name@ == old(self).name@,
            final(self).dtype == old(self).dtype,
            final(self).arr_refs == old(self).arr_refs,
    {
        let mut buf_values: Vec<i64> = Vec::new();
        let mut buf_validity: Vec<bool> = Vec::new();
        core::mem::swap(&mut self.values, &mut buf_values);
        core::mem::swap(&mut self.validity, &mut buf_validity);
        let field = Field::new(self.name.clone(), self.dtype);
        let r = Int64Array::new(field, buf_values, Some(buf_validity));
        proof {
            if r is Ok {
                assert(r->Ok_0@ =~= old(self).buffered());
            }
        }
        r
    }
}

} // verus!
