//! The growable builder for the foreign-object representation.  It cannot
//! bulk-copy: each appended element is either a fresh reference to the
//! source's object or the runtime's null sentinel, both obtained under the
//! runtime's global exclusivity lock.

use vstd::prelude::*;
use crate::dtype::DataType;
use crate::error::DaftError;
use crate::field::Field;
use crate::growable::{apply_op, GrowOp};
use crate::python_array::PythonArray;
use crate::python_object::{py_clone, py_is_none, py_none, py_obj_is_none};

verus! {

/// A builder over borrowed foreign-object source arrays.  Null elements are
/// represented in the buffer by handles to the sentinel object itself.
pub struct PythonGrowable<'a> {
    /// The name the built array will bear.
    pub name: String,
    /// The type the built array will bear: the foreign-object kind.
    pub dtype: DataType,
    /// The borrowed sources that `extend` may copy from.
    pub arr_refs: Vec<&'a PythonArray>,
    /// Accumulated handles; a null element is a handle to the sentinel.
    pub buffer: Vec<pyo3::Py<pyo3::PyAny>>,
}

impl<'a> PythonGrowable<'a> {
    /// Structural invariant: the target type is the foreign-object kind and
    /// every source is well formed.
    pub open spec fn wf(self) -> bool {
        &&& self.dtype == DataType::Python
        &&& forall|i: int| 0 <= i < self.arr_refs@.len() ==> (#[trigger] self.arr_refs@[i]).wf()
    }

    /// The sources as sequences of optional handles.
    pub open spec fn sources(self) -> Seq<Seq<Option<pyo3::Py<pyo3::PyAny>>>> {
        Seq::new(self.arr_refs@.len(), |i: int| self.arr_refs@[i].opt_view())
    }

    /// The accumulation buffer as a sequence of optional handles: `None`
    /// where the buffer holds the sentinel.
    pub open spec fn buffered(self) -> Seq<Option<pyo3::Py<pyo3::PyAny>>> {
        Seq::new(
            self.buffer@.len(),
            |i: int|
                if py_is_none(self.buffer@[i]) {
                    None
                } else {
                    Some(self.buffer@[i])
                },
        )
    }

    /// Creates a builder with an empty buffer.  The capacity is a
    /// pre-allocation hint only.
    pub fn new(
        name: String,
        dtype: &DataType,
        arr_refs: Vec<&'a PythonArray>,
        capacity: usize,
    ) -> (r: PythonGrowable<'a>)
        requires
            *dtype == DataType::Python,
            forall|i: int| 0 <= i < arr_refs@.len() ==> (#[trigger] arr_refs@[i]).wf(),
        ensures
            r.wf(),
            r.name@ == name@,
            r.dtype == *dtype,
            r.arr_refs == arr_refs,
            r.buffered().len() == 0,
    {
        PythonGrowable { name, dtype: *dtype, arr_refs, buffer: Vec::with_capacity(capacity) }
    }

    /// Appends `len` elements of source `index`, starting at `start`: a
    /// fresh reference to the source's object where the slot is valid, a
    /// sentinel handle where it is null.
    pub fn extend(&mut self, index: usize, start: usize, len: usize)
        requires
            old(self).wf(),
            index < old(self).arr_refs@.len(),
            start + len <= old(self).sources()[index as int].len(),
        ensures
            final(self).wf(),
            final(self).name@ == old(self).name@,
            final(self).dtype == old(self).dtype,
            final(self).arr_refs == old(self).arr_refs,
            final(self).buffered() == apply_op(
                old(self).sources(),
                old(self).buffered(),
                GrowOp::Extend { index, start, len },
            ),
    {
        let arr: &PythonArray = *self.arr_refs.get(index).unwrap();
        let n: usize = arr.len();
        let mut j: usize = 0;
        while j < len
            invariant
                self.wf(),
                j <= len,
                index < old(self).arr_refs@.len(),
                arr == old(self).arr_refs@[index as int],
                arr.wf(),
                n == arr.values@.len(),
                start + len <= n,
                self.name@ == old(self).name@,
                self.dtype == old(self).dtype,
                self.arr_refs == old(self).arr_refs,
                self.buffered() =~= old(self).buffered() + arr.opt_view().subrange(
                    start as int,
                    start + j,
                ),
            decreases len - j,
        {
            let ghost prev = self.buffered();
            let obj = arr.values.get(start + j).unwrap();
            if py_obj_is_none(obj) {
                self.buffer.push(py_none());
            } else {
                self.buffer.push(py_clone(obj));
            }
            proof {
                assert(self.buffered() =~= prev.push(arr.opt_view()[start + j]));
                assert(arr.opt_view().subrange(start as int, start + j + 1) =~= arr.opt_view()
                    .subrange(start as int, start + j).push(arr.opt_view()[start + j]));
            }
            j = j + 1;
            assert(self.buffered() =~= old(self).buffered() + arr.opt_view().subrange(
                start as int,
                start + j,
            ));
        }
        assert(self.buffered() =~= apply_op(
            old(self).sources(),
            old(self).buffered(),
            GrowOp::Extend { index, start, len },
        ));
    }

    /// Appends `additional` null elements: each one a handle to the shared
    /// sentinel object.
    pub fn add_nulls(&mut self, additional: usize)
        requires
            old(self).wf(),
        ensures
            final(self).wf(),
            final(self).name@ == old(self).name@,
            final(self).dtype == old(self).dtype,
            final(self).arr_refs == old(self).arr_refs,
            final(self).buffered() == apply_op(
                old(self).sources(),
                old(self).buffered(),
                GrowOp::AddNulls { count: additional },
            ),
            forall|k: int|
                old(self).buffer@.len() <= k < final(self).buffer@.len() ==> py_is_none(
                    #[trigger] final(self).buffer@[k],
                ),
    {
        let mut j: usize = 0;
        while j < additional
            invariant
                self.wf(),
                j <= additional,
                self.name@ == old(self).name@,
                self.dtype == old(self).dtype,
                self.arr_refs == old(self).arr_refs,
                self.buffer@.len() == old(self).buffer@.len() + j,
                forall|k: int|
                    old(self).buffer@.len() <= k < self.buffer@.len() ==> py_is_none(
                        #[trigger] self.buffer@[k],
                    ),
                self.buffered() =~= old(self).buffered() + Seq::new(j as nat, |i: int| None),
            decreases additional - j,
        {
            let ghost prev = self.buffered();
            self.buffer.push(py_none());
            proof {
                assert(self.buffered() =~= prev.push(None));
            }
            j = j + 1;
            assert(self.buffered() =~= old(self).buffered() + Seq::new(j as nat, |i: int| None));
        }
        assert(self.buffered() =~= apply_op(
            old(self).sources(),
            old(self).buffered(),
            GrowOp::AddNulls { count: additional },
        ));
    }

    /// Drains the accumulated handles into a new owned foreign-object array
    /// bearing the builder's declared name and type; the builder's buffer
    /// is left empty.
    pub fn build(&mut self) -> (r: Result<PythonArray, DaftError>)
        requires
            old(self).wf(),
        ensures
            r is Ok,
            r matches Ok(a) ==> {
                &&& a.wf()
                &&& a.values@ == old(self).buffer@
                &&& a.opt_view() == old(self).buffered()
                &&& a.field.name@ == old(self).name@
                &&& a.field.dtype == old(self).dtype
            },
            final(self).wf(),
            final(self).buffered().len() == 0,
            final(self).name@ == old(self).name@,
            final(self).dtype == old(self).dtype,
            final(self).arr_refs == old(self).arr_refs,
    {
        let mut buf: Vec<pyo3::Py<pyo3::PyAny>> = Vec::new();
        core::mem::swap(&mut self.buffer, &mut buf);
        let field = Field::new(self.name.clone(), self.dtype);
        let r = PythonArray::new(field, buf);
        proof {
            if r is Ok {
                assert(r->Ok_0.opt_view() =~= old(self).buffered());
            }
        }
        r
    }
}

} // verus!
