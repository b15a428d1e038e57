//! The trusted boundary to the host runtime's reference-counted objects.
//!
//! Column elements of the foreign-object representation are opaque handles.
//! Every operation that touches such a handle's reference count serializes
//! on the runtime's global exclusivity lock, which each wrapper acquires
//! around a single call.

use vstd::prelude::*;

verus! {

#[verifier::external_type_specification]
#[verifier::external_body]
#[verifier::reject_recursive_types(T)]
pub struct ExPy<T>(pyo3::Py<T>);

#[verifier::external_type_specification]
#[verifier::external_body]
pub struct ExPyAny(pyo3::PyAny);

/// Whether a foreign handle refers to the host runtime's singleton null
/// sentinel.
pub uninterp spec fn py_is_none(o: pyo3::Py<pyo3::PyAny>) -> bool;

/// Relies on pyo3's Python::None (under Python::attach): returns a handle
/// to the runtime's singleton null sentinel.
#[verifier::external_body]
pub fn py_none() -> (r: pyo3::Py<pyo3::PyAny>)
    ensures
        py_is_none(r),
{
    pyo3::Python::attach(|py| py.None())
}

/// Relies on pyo3's Py::clone_ref (under Python::attach): returns a handle
/// to the same object, after raising its reference count by one.
#[verifier::external_body]
pub fn py_clone(o: &pyo3::Py<pyo3::PyAny>) -> (r: pyo3::Py<pyo3::PyAny>)
    ensures
        r == *o,
{
    pyo3::Python::attach(|py| o.clone_ref(py))
}

/// Relies on pyo3's Py::is_none (under Python::attach): whether the handle
/// refers to the null sentinel.
#[verifier::external_body]
pub fn py_obj_is_none(o: &pyo3::Py<pyo3::PyAny>) -> (r: bool)
    ensures
        r == py_is_none(*o),
{
    pyo3::Python::attach(|py| o.is_none(py))
}

} // verus!
