//! The executable launcher.
//!
//! `run` performs the launch sequence of `machine`: with the application
//! directory already canonicalized (path resolution is process I/O and is
//! done by the caller), it attaches to the embedded interpreter, appends the
//! directory to the interpreter's module search path, imports the
//! application module, and calls its entry attribute with no arguments.
//! Every interpreter failure is reported with the interpreter's own
//! traceback and translated into the error kind of the step that failed.

use vstd::prelude::*;
use pyo3::Python;
use pyo3::Py;
use pyo3::PyErr;
use pyo3::types::PyAny;

verus! {

use crate::errors::BootError;
use crate::machine::Step;
use crate::machine::step_error;
use crate::runtime::py_call0;
use crate::runtime::py_call_str;
use crate::runtime::py_getattr;
use crate::runtime::py_import;
use crate::runtime::py_print_err;

/// The error kinds a run can end in once the application directory has been
/// resolved: every step past path resolution maps its failure here.
pub open spec fn post_resolution_error(e: BootError) -> bool {
    ||| e == step_error(Step::AcquireRuntime)
    ||| e == step_error(Step::RegisterPath)
    ||| e == step_error(Step::ImportModule)
    ||| e == step_error(Step::InvokeEntry)
}

/// The error kind of each launch step, as a value.
pub fn error_for(s: Step) -> (e: BootError)
    ensures
        e == step_error(s),
{
    match s {
        Step::ResolvePath => BootError::PathResolution,
        Step::AcquireRuntime => BootError::RuntimeIntegration,
        Step::RegisterPath => BootError::RuntimeIntegration,
        Step::ImportModule => BootError::ModuleImport,
        Step::InvokeEntry => BootError::EntryPoint,
    }
}

/// Boundary translation for interpreter results: a success passes through
/// unchanged; a raised exception is printed with the interpreter's own
/// traceback and replaced by the error kind of the step that failed.
pub fn report<T>(py: Python<'_>, res: Result<T, PyErr>, failed_step: Step) -> (r: Result<
    T,
    BootError,
>)
    ensures
        r is Ok <==> res is Ok,
        res matches Ok(v) ==> r matches Ok(w) && w == v,
        r matches Err(e) ==> e == step_error(failed_step),
{
    match res {
        Ok(v) => Ok(v),
        Err(err) => {
            py_print_err(py, &err);
            Err(error_for(failed_step))
        },
    }
}

/// Register the application directory on the interpreter's module search
/// path: look the resolution facility (`sys.path`) up and append `path` as
/// its last entry, once. A failure of any of these lookups or of the append
/// call itself signals a broken deployment, `RuntimeIntegration`.
pub fn register_search_path(py: Python<'_>, path: &str) -> (r: Result<(), BootError>)
    ensures
        r matches Err(e) ==> e == step_error(Step::RegisterPath),
{
    let sys = report(py, py_import(py, "sys"), Step::RegisterPath)?;
    let sys_path = report(py, py_getattr(py, &sys, "path"), Step::RegisterPath)?;
    let append = report(py, py_getattr(py, &sys_path, "append"), Step::RegisterPath)?;
    let _appended: Py<PyAny> = report(py, py_call_str(py, &append, path), Step::RegisterPath)?;
    Ok(())
}

/// Import the application module `module` and call its attribute `entry`
/// with no arguments, discarding the returned value. A failed import is
/// `ModuleImport`; a missing, non-callable or raising entry is `EntryPoint`.
pub fn import_and_invoke(py: Python<'_>, module: &str, entry: &str) -> (r: Result<(), BootError>)
    ensures
        r matches Err(e) ==> e == step_error(Step::ImportModule) || e == step_error(
            Step::InvokeEntry,
        ),
{
    let app = report(py, py_import(py, module), Step::ImportModule)?;
    let entry_fn = report(py, py_getattr(py, &app, entry), Step::InvokeEntry)?;
    let _returned: Py<PyAny> = report(py, py_call0(py, &entry_fn), Step::InvokeEntry)?;
    Ok(())
}

/// The launch sequence on an attached interpreter: register the resolved
/// application directory `path` on the search path, then import `module` and
/// invoke its `entry` attribute. Path resolution lies behind the caller, so
/// `PathResolution` can never come out of here; whether the remaining steps
/// succeed is the deployment's to decide, and each failure carries the error
/// kind of the step that failed.
pub fn bootstrap(py: Python<'_>, path: &str, module: &str, entry: &str) -> (r: Result<
    (),
    BootError,
>)
    ensures
        r matches Err(e) ==> post_resolution_error(e),
        r matches Err(e) ==> e != BootError::PathResolution,
{
    register_search_path(py, path)?;
    import_and_invoke(py, module, entry)
}

/// Relies on pyo3's `Python::attach`: it attaches the calling thread to the
/// process-wide interpreter (initializing the interpreter on first use; an
/// initialization failure aborts the process, matching this design's
/// treatment of runtime acquisition as infallible) and returns exactly what
/// the closure returns. The closure only calls the verified `bootstrap`, so
/// this contract restates `bootstrap`'s.
#[verifier::external_body]
fn attach_and_bootstrap(path: &str, module: &str, entry: &str) -> (r: Result<(), BootError>)
    ensures
        r matches Err(e) ==> post_resolution_error(e),
        r matches Err(e) ==> e != BootError::PathResolution,
{
    Python::attach(|py| bootstrap(py, path, module, entry))
}

/// Launch the application whose directory resolved to `resolved`, importing
/// `module` and invoking its `entry` attribute.
///
/// `resolved` is the canonicalized application directory, or `None` when it
/// could not be resolved; the run fails with `PathResolution` exactly in
/// that case, before any interpreter work, and every later failure carries
/// the error kind of the step it arose in.
pub fn run_in(resolved: Option<String>, module: &str, entry: &str) -> (r: Result<(), BootError>)
    ensures
        r == Err::<(), BootError>(BootError::PathResolution) <==> resolved is None,
        resolved is Some ==> (r matches Err(e) ==> post_resolution_error(e)),
{
    match resolved {
        None => Err(BootError::PathResolution),
        Some(path) => attach_and_bootstrap(path.as_str(), module, entry),
    }
}

/// Launch the application: append the resolved directory to the
/// interpreter's search path, import the application module, and call its
/// entry function with no arguments.
///
/// Fails with `PathResolution` exactly when `resolved` is `None`, with
/// `RuntimeIntegration` when the interpreter's search-path machinery is
/// broken, with `ModuleImport` when the application module cannot be
/// loaded, and with `EntryPoint` when the entry attribute is missing, not
/// callable, or raises.
pub fn run(resolved: Option<String>) -> (r: Result<(), BootError>)
    ensures
        r == Err::<(), BootError>(BootError::PathResolution) <==> resolved is None,
{
    run_in(resolved, "server_impl", "main")
}

} // verus!
