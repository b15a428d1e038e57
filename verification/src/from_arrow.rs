//! The conversion boundary: arrays that can be instantiated from an
//! externally supplied arrow-layout columnar value.
//!
//! A physical target type reads the external layout directly.  A logical
//! target type must first convert against its physical counterpart and
//! then wrap the result; it never interprets external bytes against
//! logical semantics.

use vstd::prelude::*;
use crate::arrow_interop::{arrow_i64_contents, arrow_i64_get, arrow_i64_len, ArrowArrayValue};
use crate::dtype::DataType;
use crate::error::DaftError;
use crate::field::Field;
use crate::int64_array::Int64Array;
use crate::logical_array::LogicalDataArray;

verus! {

/// Arrays that can be instantiated from an external arrow-layout value.
pub trait FromArrow: Sized {
    /// Whether the declared field and the external value's layout agree.
    spec fn arrow_compatible(field: Field, arr: ArrowArrayValue) -> bool;

    /// Whether a produced array faithfully carries the declared field and
    /// the external contents.
    spec fn carries(self, field: Field, arr: ArrowArrayValue) -> bool;

    /// Imports the external value against the declared field.  Succeeds
    /// exactly when the layouts agree — a zero-length value included — and
    /// then carries the external contents under the declared field.
    fn from_arrow(field: &Field, arrow_arr: ArrowArrayValue) -> (r: Result<Self, DaftError>)
        ensures
            r is Ok <==> Self::arrow_compatible(*field, arrow_arr),
            r matches Ok(a) ==> a.carries(*field, arrow_arr),
    ;
}

impl FromArrow for Int64Array {
    open spec fn arrow_compatible(field: Field, arr: ArrowArrayValue) -> bool {
        &&& field.dtype == DataType::Int64
        &&& arr is Int64
    }

    open spec fn carries(self, field: Field, arr: ArrowArrayValue) -> bool {
        &&& self.wf()
        &&& self.field.name@ == field.name@
        &&& self.field.dtype == field.dtype
        &&& self@ == arrow_i64_contents(arr->Int64_0)
    }

    fn from_arrow(field: &Field, arrow_arr: ArrowArrayValue) -> (r: Result<Self, DaftError>) {
        let ArrowArrayValue::Int64(a) = arrow_arr;
        match field.dtype {
            DataType::Int64 => {},
            _ => {
                return Err(
                    DaftError::TypeError(String::from_str("declared type is not the integer type")),
                );
            },
        }
        let n = arrow_i64_len(&a);
        let mut values: Vec<i64> = Vec::with_capacity(n);
        let mut validity: Vec<bool> = Vec::with_capacity(n);
        let mut i: usize = 0;
        while i < n
            invariant
                i <= n,
                n == arrow_i64_contents(a).len(),
                values@.len() == i as nat,
                validity@.len() == i as nat,
                forall|k: int|
                    0 <= k < i ==> #[trigger] arrow_i64_contents(a)[k] == (if validity@[k] {
                        Some(values@[k])
                    } else {
                        None
                    }),
            decreases n - i,
        {
            match arrow_i64_get(&a, i) {
                Some(v) => {
                    values.push(v);
                    validity.push(true);
                },
                None => {
                    values.push(0);
                    validity.push(false);
                },
            }
            i = i + 1;
        }
        let out = Int64Array::new(
            Field::new(field.name.clone(), field.dtype),
            values,
            Some(validity),
        );
        match out {
            Ok(res) => {
                proof {
                    assert(res@ =~= arrow_i64_contents(a));
                }
                Ok(res)
            },
            Err(e) => Err(e),
        }
    }
}

impl FromArrow for LogicalDataArray {
    open spec fn arrow_compatible(field: Field, arr: ArrowArrayValue) -> bool {
        &&& !field.dtype.spec_is_physical()
        &&& field.dtype.spec_to_physical() == DataType::Int64
        &&& arr is Int64
    }

    open spec fn carries(self, field: Field, arr: ArrowArrayValue) -> bool {
        &&& self.wf()
        &&& self.field.name@ == field.name@
        &&& self.field.dtype == field.dtype
        &&& self.physical@ == arrow_i64_contents(arr->Int64_0)
    }

    fn from_arrow(field: &Field, arrow_arr: ArrowArrayValue) -> (r: Result<Self, DaftError>) {
        if field.dtype.is_physical() {
            return Err(
                DaftError::TypeError(String::from_str("declared type carries no logical meaning")),
            );
        }
        let data_array_field = Field::new(field.name.clone(), field.dtype.to_physical());
        let physical = match Int64Array::from_arrow(&data_array_field, arrow_arr) {
            Ok(p) => p,
            Err(e) => {
                return Err(e);
            },
        };
        Ok(LogicalDataArray::new(Field::new(field.name.clone(), field.dtype), physical))
    }
}

/// Conversion round-trip, logical half: an import against a logical type
/// carries exactly the physical payload that an import of the same
/// external value against the type's physical counterpart carries.
pub proof fn lemma_logical_wraps_physical(
    field: Field,
    arr: ArrowArrayValue,
    w: LogicalDataArray,
    p: Int64Array,
)
    requires
        w.carries(field, arr),
        p.carries((Field { name: field.name, dtype: field.dtype.spec_to_physical() }), arr),
        arr is Int64,
    ensures
        w.physical@ == p@,
        w.physical.field.name@ == p.field.name@,
        w.physical.field.dtype == p.field.dtype,
{
}

} // verus!
