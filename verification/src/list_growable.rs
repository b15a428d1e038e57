//! The growable builder for the nested list representation: assembles a
//! new `ListArray` from slices of borrowed source arrays and runs of
//! nulls.  Finalization concatenates the accumulated lists into one child
//! buffer cut by offsets, and fails when the child outgrows the offset
//! range.

use vstd::prelude::*;
use crate::dtype::DataType;
use crate::error::DaftError;
use crate::growable::{apply_op, GrowOp};
use crate::list_array::{child_elems, ListArray};

verus! {

/// An accumulated list as mathematical values: its optional values, or
/// null.
pub open spec fn opt_list_view(e: Option<Vec<Option<i64>>>) -> Option<Seq<Option<i64>>> {
    match e {
        Some(v) => Some(v@),
        None => None,
    }
}

/// An accumulation buffer as a sequence of optional lists.
pub open spec fn list_buffered_view(vals: Seq<Option<Vec<Option<i64>>>>) -> Seq<
    Option<Seq<Option<i64>>>,
> {
    Seq::new(vals.len(), |i: int| opt_list_view(vals[i]))
}

/// How many child slots one list contributes to the output buffer.
pub open spec fn elem_child_count(e: Option<Seq<Option<i64>>>) -> int {
    match e {
        Some(v) => v.len() as int,
        None => 0,
    }
}

/// The child slots contributed by lists `0 .. k` together.
pub open spec fn child_total(buf: Seq<Option<Seq<Option<i64>>>>, k: int) -> int
    decreases k,
{
    if k <= 0 {
        0
    } else {
        child_total(buf, k - 1) + elem_child_count(buf[k - 1])
    }
}

/// Child totals grow with the list range.
proof fn lemma_child_total_mono(buf: Seq<Option<Seq<Option<i64>>>>, a: int, b: int)
    requires
        0 <= a <= b,
    ensures
        child_total(buf, a) <= child_total(buf, b),
    decreases b - a,
{
    if a < b {
        lemma_child_total_mono(buf, a, b - 1);
    }
}

/// Appends one list's optional values to a child buffer.
fn append_child(values: &mut Vec<i64>, validity: &mut Vec<bool>, items: &Vec<Option<i64>>)
    requires
        old(values)@.len() == old(validity)@.len(),
    ensures
        final(values)@.len() == final(validity)@.len(),
        final(values)@.len() == old(values)@.len() + items@.len(),
        child_elems(final(values)@, final(validity)@) == child_elems(
            old(values)@,
            old(validity)@,
        ) + items@,
{
    let mut t: usize = 0;
    while t < items.len()
        invariant
            t <= items@.len(),
            values@.len() == validity@.len(),
            values@.len() == old(values)@.len() + t,
            child_elems(values@, validity@) =~= child_elems(old(values)@, old(validity)@)
                + items@.subrange(0, t as int),
        decreases items@.len() - t,
    {
        let ghost prev = child_elems(values@, validity@);
        match items.get(t).unwrap() {
            Some(v) => {
                values.push(*v);
                validity.push(true);
            },
            None => {
                values.push(0);
                validity.push(false);
            },
        }
        proof {
            assert(child_elems(values@, validity@) =~= prev.push(items@[t as int]));
            assert(items@.subrange(0, t + 1) =~= items@.subrange(0, t as int).push(
                items@[t as int],
            ));
        }
        t = t + 1;
        assert(child_elems(values@, validity@) =~= child_elems(old(values)@, old(validity)@)
            + items@.subrange(0, t as int));
    }
    assert(child_elems(values@, validity@) =~= child_elems(old(values)@, old(validity)@)
        + items@);
}

/// A builder over borrowed list source arrays.  It accumulates one owned
/// optional list per appended element, and is drained by `build`.
pub struct ListGrowable<'a> {
    /// The name the built array will bear.
    pub name: String,
    /// The type the built array will bear; stored as `List`.
    pub dtype: DataType,
    /// The borrowed sources that `extend` may copy from.
    pub arr_refs: Vec<&'a ListArray>,
    /// Accumulated lists; `None` is a null.
    pub values: Vec<Option<Vec<Option<i64>>>>,
}

impl<'a> ListGrowable<'a> {
    /// Structural invariant: the target type is stored as `List` and every
    /// source is well formed.
    pub open spec fn wf(self) -> bool {
        &&& self.dtype.spec_to_physical() == DataType::List
        &&& forall|i: int| 0 <= i < self.arr_refs@.len() ==> (#[trigger] self.arr_refs@[i]).wf()
    }

    /// The sources as sequences of optional lists.
    pub open spec fn sources(self) -> Seq<Seq<Option<Seq<Option<i64>>>>> {
        Seq::new(self.arr_refs@.len(), |i: int| self.arr_refs@[i]@)
    }

    /// The accumulation buffer as a sequence of optional lists.
    pub open spec fn buffered(self) -> Seq<Option<Seq<Option<i64>>>> {
        list_buffered_view(self.values@)
    }

    /// Creates a builder with an empty buffer.  The capacity is a
    /// pre-allocation hint only.
    pub fn new(
        name: String,
        dtype: &DataType,
        arr_refs: Vec<&'a ListArray>,
        capacity: usize,
    ) -> (r: ListGrowable<'a>)
        requires
            dtype.spec_to_physical() == DataType::List,
            forall|i: int| 0 <= i < arr_refs@.len() ==> (#[trigger] arr_refs@[i]).wf(),
        ensures
            r.wf(),
            r.name@ == name@,
            r.dtype == *dtype,
            r.arr_refs == arr_refs,
            r.buffered().len() == 0,
    {
        ListGrowable { name, dtype: *dtype, arr_refs, values: Vec::with_capacity(capacity) }
    }

    /// Appends `len` elements of source `index`, starting at `start`,
    /// preserving each list's validity flag.
    pub fn extend(&mut self, index: usize, start: usize, len: usize)
        requires
            old(self).wf(),
            index < old(self).arr_refs@.len(),
            start + len <= old(self).sources()[index as int].len(),
        ensures
            final(self).wf(),
            final(self).name@ == old(self).name@,
            final(self).dtype == old(self).dtype,
            final(self).arr_refs == old(self).arr_refs,
            final(self).buffered() == apply_op(
                old(self).sources(),
                old(self).buffered(),
                GrowOp::Extend { index, start, len },
            ),
    {
        let arr: &ListArray = *self.arr_refs.get(index).unwrap();
        let n: usize = arr.len();
        let mut j: usize = 0;
        while j < len
            invariant
                self.wf(),
                j <= len,
                index < old(self).arr_refs@.len(),
                arr == old(self).arr_refs@[index as int],
                arr.wf(),
                n == arr@.len(),
                start + len <= n,
                self.name@ == old(self).name@,
                self.dtype == old(self).dtype,
                self.arr_refs == old(self).arr_refs,
                self.buffered() =~= old(self).buffered() + arr@.subrange(
                    start as int,
                    start + j,
                ),
            decreases len - j,
        {
            let ghost prev = self.buffered();
            self.values.push(arr.get(start + j));
            proof {
                assert(self.buffered() =~= prev.push(arr@[start + j]));
                assert(arr@.subrange(start as int, start + j + 1) =~= arr@.subrange(
                    start as int,
                    start + j,
                ).push(arr@[start + j]));
            }
            j = j + 1;
            assert(self.buffered() =~= old(self).buffered() + arr@.subrange(
                start as int,
                start + j,
            ));
        }
        assert(self.buffered() =~= apply_op(
            old(self).sources(),
            old(self).buffered(),
            GrowOp::Extend { index, start, len },
        ));
    }

    /// Appends `additional` null elements, independent of any source.
    pub fn add_nulls(&mut self, additional: usize)
        requires
            old(self).wf(),
        ensures
            final(self).wf(),
            final(self).name@ == old(self).name@,
            final(self).dtype == old(self).dtype,
            final(self).arr_refs == old(self).arr_refs,
            final(self).buffered() == apply_op(
                old(self).sources(),
                old(self).buffered(),
                GrowOp::AddNulls { count: additional },
            ),
    {
        let mut j: usize = 0;
        while j < additional
            invariant
                self.wf(),
                j <= additional,
                self.name@ == old(self).name@,
                self.dtype == old(self).dtype,
                self.arr_refs == old(self).arr_refs,
                self.buffered() =~= old(self).buffered() + Seq::new(j as nat, |i: int| None),
            decreases additional - j,
        {
            let ghost prev = self.buffered();
            self.values.push(None);
            proof {
                assert(self.buffered() =~= prev.push(None));
            }
            j = j + 1;
            assert(self.buffered() =~= old(self).buffered() + Seq::new(j as nat, |i: int| None));
        }
        assert(self.buffered() =~= apply_op(
            old(self).sources(),
            old(self).buffered(),
            GrowOp::AddNulls { count: additional },
        ));
    }

    /// Drains the accumulated lists into a new owned array bearing the
    /// builder's declared name and type, concatenating the child values
    /// behind offsets; fails exactly when the accumulated child slots
    /// outgrow the offset range.  The builder's buffer is left empty
    /// either way.
    #[verifier::rlimit(60)]
    pub fn build(&mut self) -> (r: Result<ListArray, DaftError>)
        requires
            old(self).wf(),
        ensures
            r is Ok <==> child_total(old(self).buffered(), old(self).buffered().len() as int)
                <= i64::MAX,
            r matches Ok(a) ==> {
                &&& a.wf()
                &&& a@ == old(self).buffered()
                &&& a.field.name@ == old(self).name@
                &&& a.field.dtype == old(self).dtype
            },
            final(self).wf(),
            final(self).buffered().len() == 0,
            final(self).name@ == old(self).name@,
            final(self).dtype == old(self).dtype,
            final(self).arr_refs == old(self).arr_refs,
    {
        let mut buf: Vec<Option<Vec<Option<i64>>>> = Vec::new();
        core::mem::swap(&mut self.values, &mut buf);
        let m: usize = buf.len();
        let mut child_values: Vec<i64> = Vec::new();
        let mut child_validity: Vec<bool> = Vec::new();
        let mut offsets: Vec<i64> = Vec::with_capacity(m);
        let mut validity: Vec<bool> = Vec::with_capacity(m);
        offsets.push(0);
        let mut k: usize = 0;
        while k < m
            invariant
                k <= m,
                m == buf@.len(),
                list_buffered_view(buf@) == old(self).buffered(),
                self.wf(),
                self.values@.len() == 0,
                self.name@ == old(self).name@,
                self.dtype == old(self).dtype,
                self.arr_refs == old(self).arr_refs,
                offsets@.len() == k + 1,
                validity@.len() == k as nat,
                offsets@[0] == 0,
                child_validity@.len() == child_values@.len(),
                child_values@.len() == child_total(list_buffered_view(buf@), k as int),
                child_values@.len() <= i64::MAX,
                offsets@.last() == child_values@.len(),
                forall|k2: int|
                    0 <= k2 < k + 1 ==> 0 <= #[trigger] offsets@[k2] <= child_values@.len(),
                forall|k2: int| 0 <= k2 < k ==> #[trigger] offsets@[k2] <= offsets@[k2 + 1],
                forall|k2: int|
                    0 <= k2 < k ==> (if validity@[k2] {
                        Some(
                            child_elems(child_values@, child_validity@).subrange(
                                offsets@[k2] as int,
                                offsets@[k2 + 1] as int,
                            ),
                        )
                    } else {
                        None
                    }) == list_buffered_view(buf@)[k2],
            decreases m - k,
        {
            let ghost prev_elems = child_elems(child_values@, child_validity@);
            match buf.get(k).unwrap() {
                Some(items) => {
                    if items.len() as u64 > i64::MAX as u64 - child_values.len() as u64 {
                        proof {
                            lemma_child_total_mono(
                                list_buffered_view(buf@),
                                k as int + 1,
                                m as int,
                            );
                        }
                        return Err(
                            DaftError::TypeError(
                                String::from_str("accumulated lists outgrow the offset range"),
                            ),
                        );
                    }
                    append_child(&mut child_values, &mut child_validity, items);
                    offsets.push(child_values.len() as i64);
                    validity.push(true);
                    proof {
                        assert(child_elems(child_values@, child_validity@).subrange(
                            offsets@[k as int] as int,
                            offsets@[k as int + 1] as int,
                        ) =~= items@);
                        assert forall|k2: int| 0 <= k2 < k implies (if validity@[k2] {
                            Some(
                                child_elems(child_values@, child_validity@).subrange(
                                    offsets@[k2] as int,
                                    offsets@[k2 + 1] as int,
                                ),
                            )
                        } else {
                            None
                        }) == list_buffered_view(buf@)[k2] by {
                            if validity@[k2] {
                                assert(child_elems(child_values@, child_validity@).subrange(
                                    offsets@[k2] as int,
                                    offsets@[k2 + 1] as int,
                                ) =~= prev_elems.subrange(
                                    offsets@[k2] as int,
                                    offsets@[k2 + 1] as int,
                                ));
                            }
                        }
                    }
                },
                None => {
                    offsets.push(child_values.len() as i64);
                    validity.push(false);
                },
            }
            k = k + 1;
        }
        let arr = match ListArray::try_new(self.name.as_str(), child_values, child_validity, offsets) {
            Ok(a) => a,
            Err(e) => {
                return Err(e);
            },
        };
        let out = match arr.with_validity(validity) {
            Ok(a) => a,
            Err(e) => {
                return Err(e);
            },
        };
        proof {
            assert(out@ =~= old(self).buffered());
        }
        Ok(out)
    }
}

} // verus!
