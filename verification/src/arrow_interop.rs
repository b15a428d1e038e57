//! The trusted boundary to externally supplied arrow-layout columnar
//! values.  The external primitive column is held opaquely; a spec name
//! gives its contents as a sequence of optional plain values, and one
//! wrapper per relied-on accessor reads them out.

use vstd::prelude::*;

verus! {

/// An externally supplied primitive integer column, held opaquely.
#[verifier::external_body]
pub struct ArrowInt64Array {
    inner: arrow2::array::PrimitiveArray<i64>,
}

/// The elements an external primitive integer column holds, `None` at null
/// slots.
pub uninterp spec fn arrow_i64_contents(a: ArrowInt64Array) -> Seq<Option<i64>>;

/// Relies on arrow2's PrimitiveArray::from: builds a column holding
/// exactly the given optional values, in order.
#[verifier::external_body]
pub fn arrow_i64_from_options(items: Vec<Option<i64>>) -> (r: ArrowInt64Array)
    ensures
        arrow_i64_contents(r) == items@,
{
    ArrowInt64Array { inner: arrow2::array::PrimitiveArray::from(items) }
}

/// Relies on arrow2's PrimitiveArray::len: the number of slots.
#[verifier::external_body]
pub(crate) fn arrow_i64_len(a: &ArrowInt64Array) -> (r: usize)
    ensures
        r == arrow_i64_contents(*a).len(),
{
    a.inner.len()
}

/// Relies on arrow2's PrimitiveArray::get: the element at slot `i`, `None`
/// where the slot is null.
#[verifier::external_body]
pub(crate) fn arrow_i64_get(a: &ArrowInt64Array, i: usize) -> (r: Option<i64>)
    requires
        i < arrow_i64_contents(*a).len(),
    ensures
        r == arrow_i64_contents(*a)[i as int],
{
    a.inner.get(i)
}

/// An externally supplied columnar value, tagged by its physical layout.
pub enum ArrowArrayValue {
    /// A primitive 64-bit integer layout.
    Int64(ArrowInt64Array),
}

} // verus!
