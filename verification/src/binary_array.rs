//! The variable-length byte physical array: a contiguous data buffer cut
//! into elements by an offsets sequence, with an optional validity
//! sequence.  This is the construction surface that byte-gathering
//! collaborators feed with raw bytes, offsets and per-position validity.

use vstd::prelude::*;
use crate::dtype::DataType;
use crate::error::DaftError;
use crate::field::Field;

verus! {

/// A column of variable-length byte strings.  Element `i` is the byte run
/// `data[offsets[i] .. offsets[i + 1]]`.
pub struct BinaryArray {
    /// The column's name and declared type.
    pub field: Field,
    /// The concatenated bytes of every element.
    pub data: Vec<u8>,
    /// One more entry than there are elements; monotone, starting at zero
    /// and ending at the data length.
    pub offsets: Vec<i64>,
    /// Which slots hold a value; absent when all do.
    pub validity: Option<Vec<bool>>,
}

/// Appends one byte buffer's contents to another.
pub(crate) fn append_bytes(data: &mut Vec<u8>, b: &Vec<u8>)
    ensures
        final(data)@ == old(data)@ + b@,
{
    let mut t: usize = 0;
    while t < b.len()
        invariant
            t <= b@.len(),
            data@ =~= old(data)@ + b@.subrange(0, t as int),
        decreases b@.len() - t,
    {
        data.push(*b.get(t).unwrap());
        t = t + 1;
        assert(data@ =~= old(data)@ + b@.subrange(0, t as int));
    }
    assert(data@ =~= old(data)@ + b@);
}

/// Whether an offsets sequence cuts a data buffer of length `data_len` into
/// well-formed elements.
pub open spec fn offsets_well_formed(offsets: Seq<i64>, data_len: nat) -> bool {
    &&& offsets.len() >= 1
    &&& offsets[0] == 0
    &&& offsets.last() == data_len
    &&& forall|i: int|
        0 <= i < offsets.len() ==> 0 <= #[trigger] offsets[i] <= data_len
    &&& forall|i: int|
        0 <= i < offsets.len() - 1 ==> #[trigger] offsets[i] <= offsets[i + 1]
}

impl BinaryArray {
    /// Structural invariant: the declared type is stored as `Binary`, the
    /// offsets cut the data buffer, and the validity sequence, when
    /// present, covers every element.
    pub open spec fn wf(self) -> bool {
        &&& self.field.dtype.spec_to_physical() == DataType::Binary
        &&& offsets_well_formed(self.offsets@, self.data@.len())
        &&& match self.validity {
            Some(v) => v@.len() == self.offsets@.len() - 1,
            None => true,
        }
    }

    /// Whether slot `i` holds a value.
    pub open spec fn spec_valid_at(self, i: int) -> bool {
        match self.validity {
            Some(v) => v@[i],
            None => true,
        }
    }

    /// Builds an array from raw bytes and offsets, all slots valid.
    /// Succeeds exactly when the offsets cut the data buffer: non-empty,
    /// starting at zero, monotone, within bounds and ending at the data
    /// length.
    pub fn try_new(name: &str, data: Vec<u8>, offsets: Vec<i64>) -> (r: Result<
        BinaryArray,
        DaftError,
    >)
        ensures
            r is Ok <==> offsets_well_formed(offsets@, data@.len()),
            r matches Ok(a) ==> {
                &&& a.wf()
                &&& a.field.name@ == name@
                &&& a.field.dtype == DataType::Binary
                &&& a.data == data
                &&& a.offsets == offsets
                &&& a.validity is None
            },
    {
        if offsets.len() == 0 {
            return Err(DaftError::TypeError(String::from_str("offsets must not be empty")));
        }
        if *offsets.get(0).unwrap() != 0 {
            return Err(DaftError::TypeError(String::from_str("offsets must start at zero")));
        }
        if data.len() as u64 > i64::MAX as u64 || *offsets.get(offsets.len() - 1).unwrap()
            != data.len() as i64 {
            return Err(
                DaftError::TypeError(String::from_str("offsets must end at the data length")),
            );
        }
        let mut i: usize = 0;
        while i < offsets.len()
            invariant
                i <= offsets@.len(),
                offsets@.len() >= 1,
                data@.len() <= i64::MAX,
                forall|k: int| 0 <= k < i ==> 0 <= #[trigger] offsets@[k] <= data@.len(),
                forall|k: int|
                    0 <= k < i && k + 1 < offsets@.len() ==> #[trigger] offsets@[k] <= offsets@[k
                        + 1],
            decreases offsets@.len() - i,
        {
            let o = *offsets.get(i).unwrap();
            if o < 0 || o > data.len() as i64 {
                return Err(
                    DaftError::TypeError(String::from_str("offset outside the data buffer")),
                );
            }
            if i + 1 < offsets.len() && o > *offsets.get(i + 1).unwrap() {
                return Err(DaftError::TypeError(String::from_str("offsets must not decrease")));
            }
            i = i + 1;
        }
        let field = Field::new(name.to_string(), DataType::Binary);
        Ok(BinaryArray { field, data, offsets, validity: None })
    }

    /// The same array with the given validity sequence.  Succeeds exactly
    /// when the sequence covers every element.
    pub fn with_validity(self, validity: Vec<bool>) -> (r: Result<BinaryArray, DaftError>)
        requires
            self.wf(),
        ensures
            r is Ok <==> validity@.len() == self.offsets@.len() - 1,
            r matches Ok(a) ==> {
                &&& a.wf()
                &&& a.field == self.field
                &&& a.data == self.data
                &&& a.offsets == self.offsets
                &&& a.validity == Some(validity)
            },
    {
        if validity.len() != self.offsets.len() - 1 {
            return Err(
                DaftError::TypeError(
                    String::from_str("validity length must match the element count"),
                ),
            );
        }
        Ok(BinaryArray { field: self.field, data: self.data, offsets: self.offsets, validity: Some(validity) })
    }

    /// The number of elements.
    pub fn len(&self) -> (r: usize)
        requires
            self.wf(),
        ensures
            r == self@.len(),
    {
        self.offsets.len() - 1
    }

    /// The element at slot `i`: its bytes, or `None` when the slot is null.
    pub fn get(&self, i: usize) -> (r: Option<Vec<u8>>)
        requires
            self.wf(),
            i < self@.len(),
        ensures
            r matches Some(b) ==> self@[i as int] == Some(b@),
            r is None <==> self@[i as int] is None,
    {
        let valid = match &self.validity {
            Some(v) => *v.get(i).unwrap(),
            None => true,
        };
        if !valid {
            return None;
        }
        let dlen: usize = self.data.len();
        assert(0 <= self.offsets@[i as int] <= self.offsets@[i as int + 1] <= dlen);
        let lo = *self.offsets.get(i).unwrap() as usize;
        let hi = *self.offsets.get(i + 1).unwrap() as usize;
        let mut out: Vec<u8> = Vec::with_capacity(hi - lo);
        let mut k: usize = lo;
        while k < hi
            invariant
                lo <= k <= hi,
                hi <= self.data@.len(),
                out@ =~= self.data@.subrange(lo as int, k as int),
            decreases hi - k,
        {
            out.push(*self.data.get(k).unwrap());
            k = k + 1;
            assert(out@ =~= self.data@.subrange(lo as int, k as int));
        }
        Some(out)
    }

    /// The column's name.
    pub fn name(&self) -> (r: &String)
        ensures
            r@ == self.field.name@,
    {
        &self.field.name
    }
}

impl View for BinaryArray {
    type V = Seq<Option<Seq<u8>>>;

    /// The array as a sequence of optional byte strings: `None` at null
    /// slots.
    open spec fn view(&self) -> Seq<Option<Seq<u8>>> {
        Seq::new(
            (self.offsets@.len() - 1) as nat,
            |i: int|
                if self.spec_valid_at(i) {
                    Some(self.data@.subrange(self.offsets@[i] as int, self.offsets@[i + 1] as int))
                } else {
                    None
                },
        )
    }
}

} // verus!
