//! Trusted boundary to the embedded Python interpreter (pyo3).
//!
//! Exactly the operations the launcher consumes: import a module by name,
//! look an attribute up by name, call an object with no or one argument, and
//! print a raised error's own traceback. Nothing is promised of any outcome:
//! what the interpreter returns depends on the deployment (what is on disk,
//! which modules exist), so every caller must handle both results.

use vstd::prelude::*;
use pyo3::Python;
use pyo3::Py;
use pyo3::PyErr;
use pyo3::types::PyAny;
use pyo3::types::PyAnyMethods;

verus! {

/// pyo3's interpreter token: proof that the calling thread is attached to the
/// process-wide interpreter. Opaque to verification.
#[verifier::external_type_specification]
#[verifier::external_body]
pub struct ExPython<'py>(Python<'py>);

/// pyo3's owned reference to an interpreter object. Opaque to verification.
#[verifier::external_type_specification]
#[verifier::external_body]
#[verifier::reject_recursive_types(T)]
pub struct ExPy<T>(Py<T>);

/// pyo3's dynamically typed interpreter object. Opaque to verification.
#[verifier::external_type_specification]
#[verifier::external_body]
pub struct ExPyAny(PyAny);

/// pyo3's representation of a raised Python exception. Opaque to verification.
#[verifier::external_type_specification]
#[verifier::external_body]
pub struct ExPyErr(PyErr);

/// Relies on pyo3's `Python::import`: loads the module named `name` (running
/// its top-level code on first import) and returns the module object, or the
/// exception the import raised.
#[verifier::external_body]
pub(crate) fn py_import(py: Python<'_>, name: &str) -> (r: Result<Py<PyAny>, PyErr>) {
    py.import(name).map(|m| m.into_any().unbind())
}

/// Relies on pyo3's `PyAnyMethods::getattr`: looks the attribute named `name`
/// up on `obj`, or returns the exception the lookup raised.
#[verifier::external_body]
pub(crate) fn py_getattr(py: Python<'_>, obj: &Py<PyAny>, name: &str) -> (r: Result<
    Py<PyAny>,
    PyErr,
>) {
    obj.bind(py).getattr(name).map(|a| a.unbind())
}

/// Relies on pyo3's `PyAnyMethods::call1`: calls `f` with the single string
/// argument `arg`, returning its result or the exception the call raised.
#[verifier::external_body]
pub(crate) fn py_call_str(py: Python<'_>, f: &Py<PyAny>, arg: &str) -> (r: Result<
    Py<PyAny>,
    PyErr,
>) {
    f.bind(py).call1((arg,)).map(|v| v.unbind())
}

/// Relies on pyo3's `PyAnyMethods::call0`: calls `f` with no arguments,
/// returning its result or the exception the call raised.
#[verifier::external_body]
pub(crate) fn py_call0(py: Python<'_>, f: &Py<PyAny>) -> (r: Result<Py<PyAny>, PyErr>) {
    f.bind(py).call0().map(|v| v.unbind())
}

/// Relies on pyo3's `PyErr::print`: writes the interpreter's own diagnostic
/// (type, message and traceback) for `err` to standard error.
#[verifier::external_body]
pub(crate) fn py_print_err(py: Python<'_>, err: &PyErr) {
    err.print(py);
}

} // verus!
