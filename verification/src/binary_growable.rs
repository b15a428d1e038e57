//! The growable builder for the variable-length byte representation:
//! assembles a new `BinaryArray` from slices of borrowed source arrays and
//! runs of nulls.  Finalization concatenates the accumulated elements into
//! one data buffer cut by offsets, and fails when the bytes outgrow the
//! offset range.

use vstd::prelude::*;
use crate::binary_array::{append_bytes, BinaryArray};
use crate::dtype::DataType;
use crate::error::DaftError;
use crate::field::Field;
use crate::growable::{apply_op, GrowOp};

verus! {

/// An accumulated element as mathematical values: its bytes, or null.
pub open spec fn opt_bytes_view(e: Option<Vec<u8>>) -> Option<Seq<u8>> {
    match e {
        Some(v) => Some(v@),
        None => None,
    }
}

/// An accumulation buffer as a sequence of optional byte strings.
pub open spec fn buffered_view(vals: Seq<Option<Vec<u8>>>) -> Seq<Option<Seq<u8>>> {
    Seq::new(vals.len(), |i: int| opt_bytes_view(vals[i]))
}

/// How many bytes one element contributes to the output buffer.
pub open spec fn elem_bytes_len(e: Option<Seq<u8>>) -> int {
    match e {
        Some(b) => b.len() as int,
        None => 0,
    }
}

/// The bytes contributed by elements `0 .. k` together.
pub open spec fn bytes_total(buf: Seq<Option<Seq<u8>>>, k: int) -> int
    decreases k,
{
    if k <= 0 {
        0
    } else {
        bytes_total(buf, k - 1) + elem_bytes_len(buf[k - 1])
    }
}

/// Byte totals grow with the element range.
proof fn lemma_bytes_total_mono(buf: Seq<Option<Seq<u8>>>, a: int, b: int)
    requires
        0 <= a <= b,
    ensures
        bytes_total(buf, a) <= bytes_total(buf, b),
    decreases b - a,
{
    if a < b {
        lemma_bytes_total_mono(buf, a, b - 1);
    }
}

/// A builder over borrowed byte source arrays.  It accumulates one owned
/// optional byte string per appended element, and is drained by `build`.
pub struct BinaryGrowable<'a> {
    /// The name the built array will bear.
    pub name: String,
    /// The type the built array will bear; stored as `Binary`.
    pub dtype: DataType,
    /// The borrowed sources that `extend` may copy from.
    pub arr_refs: Vec<&'a BinaryArray>,
    /// Accumulated elements; `None` is a null.
    pub values: Vec<Option<Vec<u8>>>,
}

impl<'a> BinaryGrowable<'a> {
    /// Structural invariant: the target type is stored as `Binary` and
    /// every source is well formed.
    pub open spec fn wf(self) -> bool {
        &&& self.dtype.spec_to_physical() == DataType::Binary
        &&& forall|i: int| 0 <= i < self.arr_refs@.len() ==> (#[trigger] self.arr_refs@[i]).wf()
    }

    /// The sources as sequences of optional byte strings.
    pub open spec fn sources(self) -> Seq<Seq<Option<Seq<u8>>>> {
        Seq::new(self.arr_refs@.len(), |i: int| self.arr_refs@[i]@)
    }

    /// The accumulation buffer as a sequence of optional byte strings.
    pub open spec fn buffered(self) -> Seq<Option<Seq<u8>>> {
        buffered_view(self.values@)
    }

    /// Creates a builder with an empty buffer.  The capacity is a
    /// pre-allocation hint only.
    pub fn new(
        name: String,
        dtype: &DataType,
        arr_refs: Vec<&'a BinaryArray>,
        capacity: usize,
    ) -> (r: BinaryGrowable<'a>)
        requires
            dtype.spec_to_physical() == DataType::Binary,
            forall|i: int| 0 <= i < arr_refs@.len() ==> (#[trigger] arr_refs@[i]).wf(),
        ensures
            r.wf(),
            r.name@ == name@,
            r.dtype == *dtype,
            r.arr_refs == arr_refs,
            r.buffered().len() == 0,
    {
        BinaryGrowable { name, dtype: *dtype, arr_refs, values: Vec::with_capacity(capacity) }
    }

    /// Appends `len` elements of source `index`, starting at `start`,
    /// preserving each element's validity flag.
    pub fn extend(&mut self, index: usize, start: usize, len: usize)
        requires
            old(self).wf(),
            index < old(self).arr_refs@.len(),
            start + len <= old(self).sources()[index as int].len(),
        ensures
            final(self).wf(),
            final(self).name@ == old(self).name@,
            final(self).dtype == old(self).dtype,
            final(self).arr_refs == old(self).arr_refs,
            final(self).buffered() == apply_op(
                old(self).sources(),
                old(self).buffered(),
                GrowOp::Extend { index, start, len },
            ),
    {
        let arr: &BinaryArray = *self.arr_refs.get(index).unwrap();
        let n: usize = arr.len();
        let mut j: usize = 0;
        while j < len
            invariant
                self.wf(),
                j <= len,
                index < old(self).arr_refs@.len(),
                arr == old(self).arr_refs@[index as int],
                arr.wf(),
                n == arr@.len(),
                start + len <= n,
                self.name@ == old(self).name@,
                self.dtype == old(self).dtype,
                self.arr_refs == old(self).arr_refs,
                self.buffered() =~= old(self).buffered() + arr@.subrange(
                    start as int,
                    start + j,
                ),
            decreases len - j,
        {
            let ghost prev = self.buffered();
            self.values.push(arr.get(start + j));
            proof {
                assert(self.buffered() =~= prev.push(arr@[start + j]));
                assert(arr@.subrange(start as int, start + j + 1) =~= arr@.subrange(
                    start as int,
                    start + j,
                ).push(arr@[start + j]));
            }
            j = j + 1;
            assert(self.buffered() =~= old(self).buffered() + arr@.subrange(
                start as int,
                start + j,
            ));
        }
        assert(self.buffered() =~= apply_op(
            old(self).sources(),
            old(self).buffered(),
            GrowOp::Extend { index, start, len },
        ));
    }

    /// Appends `additional` null elements, independent of any source.
    pub fn add_nulls(&mut self, additional: usize)
        requires
            old(self).wf(),
        ensures
            final(self).wf(),
            final(self).name@ == old(self).name@,
            final(self).dtype == old(self).dtype,
            final(self).arr_refs == old(self).arr_refs,
            final(self).buffered() == apply_op(
                old(self).sources(),
                old(self).buffered(),
                GrowOp::AddNulls { count: additional },
            ),
    {
        let mut j: usize = 0;
        while j < additional
            invariant
                self.wf(),
                j <= additional,
                self.name@ == old(self).name@,
                self.dtype == old(self).dtype,
                self.arr_refs == old(self).arr_refs,
                self.buffered() =~= old(self).buffered() + Seq::new(j as nat, |i: int| None),
            decreases additional - j,
        {
            let ghost prev = self.buffered();
            self.values.push(None);
            proof {
                assert(self.buffered() =~= prev.push(None));
            }
            j = j + 1;
            assert(self.buffered() =~= old(self).buffered() + Seq::new(j as nat, |i: int| None));
        }
        assert(self.buffered() =~= apply_op(
            old(self).sources(),
            old(self).buffered(),
            GrowOp::AddNulls { count: additional },
        ));
    }

    /// Drains the accumulated elements into a new owned array bearing the
    /// builder's declared name and type, concatenating the bytes behind
    /// offsets; fails exactly when the accumulated bytes outgrow the
    /// offset range.  The builder's buffer is left empty either way.
    #[verifier::rlimit(60)]
    pub fn build(&mut self) -> (r: Result<BinaryArray, DaftError>)
        requires
            old(self).wf(),
        ensures
            r is Ok <==> bytes_total(old(self).buffered(), old(self).buffered().len() as int)
                <= i64::MAX,
            r matches Ok(a) ==> {
                &&& a.wf()
                &&& a@ == old(self).buffered()
                &&& a.field.name@ == old(self).name@
                &&& a.field.dtype == old(self).dtype
            },
            final(self).wf(),
            final(self).buffered().len() == 0,
            final(self).name@ == old(self).name@,
            final(self).dtype == old(self).dtype,
            final(self).arr_refs == old(self).arr_refs,
    {
        let mut buf: Vec<Option<Vec<u8>>> = Vec::new();
        core::mem::swap(&mut self.values, &mut buf);
        let m: usize = buf.len();
        let mut data: Vec<u8> = Vec::new();
        let mut offsets: Vec<i64> = Vec::with_capacity(m);
        let mut validity: Vec<bool> = Vec::with_capacity(m);
        offsets.push(0);
        let mut k: usize = 0;
        while k < m
            invariant
                k <= m,
                m == buf@.len(),
                buffered_view(buf@) == old(self).buffered(),
                self.wf(),
                self.values@.len() == 0,
                self.name@ == old(self).name@,
                self.dtype == old(self).dtype,
                self.arr_refs == old(self).arr_refs,
                offsets@.len() == k + 1,
                validity@.len() == k as nat,
                offsets@[0] == 0,
                data@.len() == bytes_total(buffered_view(buf@), k as int),
                data@.len() <= i64::MAX,
                offsets@.last() == data@.len(),
                forall|k2: int| 0 <= k2 < k + 1 ==> 0 <= #[trigger] offsets@[k2] <= data@.len(),
                forall|k2: int| 0 <= k2 < k ==> #[trigger] offsets@[k2] <= offsets@[k2 + 1],
                forall|k2: int|
                    0 <= k2 < k ==> (if validity@[k2] {
                        Some(data@.subrange(offsets@[k2] as int, offsets@[k2 + 1] as int))
                    } else {
                        None
                    }) == buffered_view(buf@)[k2],
            decreases m - k,
        {
            match buf.get(k).unwrap() {
                Some(b) => {
                    if b.len() as u64 > i64::MAX as u64 - data.len() as u64 {
                        proof {
                            lemma_bytes_total_mono(buffered_view(buf@), k as int + 1, m as int);
                        }
                        return Err(
                            DaftError::TypeError(
                                String::from_str("accumulated bytes outgrow the offset range"),
                            ),
                        );
                    }
                    append_bytes(&mut data, b);
                    offsets.push(data.len() as i64);
                    validity.push(true);
                    proof {
                        assert(data@.subrange(
                            offsets@[k as int] as int,
                            offsets@[k as int + 1] as int,
                        ) =~= b@);
                    }
                },
                None => {
                    offsets.push(data.len() as i64);
                    validity.push(false);
                },
            }
            k = k + 1;
        }
        let arr = match BinaryArray::try_new(self.name.as_str(), data, offsets) {
            Ok(a) => a,
            Err(e) => {
                return Err(e);
            },
        };
        let out = match arr.with_validity(validity) {
            Ok(a) => a,
            Err(e) => {
                return Err(e);
            },
        };
        proof {
            assert(out@ =~= old(self).buffered());
        }
        Ok(out)
    }
}

} // verus!
