use launcher::BootError;
use launcher::Step;
use pyo3::types::PyAnyMethods;

#[test]
fn unresolved_directory_is_path_resolution_error() {
    let r = launcher::run(None);
    assert_eq!(r, Err(BootError::PathResolution));
}

#[test]
fn unresolved_directory_in_run_in_is_path_resolution_error() {
    let r = launcher::run_in(None, "gc", "collect");
    assert_eq!(r, Err(BootError::PathResolution));
}

#[test]
fn valid_module_and_entry_succeed() {
    // `gc.collect` is a zero-argument callable that returns normally, the
    // shape the launcher expects of an application entry point.
    let r = launcher::run_in(Some(String::from(".")), "gc", "collect");
    assert_eq!(r, Ok(()));
}

#[test]
fn missing_module_is_module_import_error() {
    let r = launcher::run_in(
        Some(String::from(".")),
        "module_that_certainly_does_not_exist",
        "main",
    );
    assert_eq!(r, Err(BootError::ModuleImport));
}

#[test]
fn missing_entry_attribute_is_entry_point_error() {
    let r = launcher::run_in(Some(String::from(".")), "gc", "attribute_that_does_not_exist");
    assert_eq!(r, Err(BootError::EntryPoint));
    assert_ne!(r, Err(BootError::ModuleImport));
}

#[test]
fn raising_entry_is_entry_point_error() {
    // `sys.intern` raises when called with no arguments: the module imports,
    // the attribute resolves, and the invocation itself fails.
    let r = launcher::run_in(Some(String::from(".")), "sys", "intern");
    assert_eq!(r, Err(BootError::EntryPoint));
}

#[test]
fn module_import_error_and_entry_point_error_are_distinct() {
    let import_failure = launcher::run_in(Some(String::from(".")), "another_absent_module", "main");
    let entry_failure = launcher::run_in(Some(String::from(".")), "gc", "no_such_entry");
    assert_ne!(import_failure, entry_failure);
}

#[test]
fn register_appends_exactly_one_entry_at_the_end() {
    pyo3::Python::attach(|py| {
        let sys = py.import("sys").unwrap();
        let search_paths = sys.getattr("path").unwrap();
        let before: usize = search_paths.len().unwrap();
        let r = launcher::register_search_path(py, "/launcher_test_search_entry");
        assert_eq!(r, Ok(()));
        let after: usize = search_paths.len().unwrap();
        assert_eq!(after, before + 1);
        let last: String = search_paths.get_item(after - 1).unwrap().extract().unwrap();
        assert_eq!(last, "/launcher_test_search_entry");
    });
}

#[test]
fn bootstrap_reaches_registration_before_import_fails() {
    // The failing import must come after a successful registration: the
    // appended entry is present once the run has ended.
    pyo3::Python::attach(|py| {
        let r = launcher::bootstrap(py, "/launcher_test_register_then_import", "absent_module", "main");
        assert_eq!(r, Err(BootError::ModuleImport));
        let sys = py.import("sys").unwrap();
        let search_paths = sys.getattr("path").unwrap();
        let mut found = false;
        let n: usize = search_paths.len().unwrap();
        let mut i: usize = 0;
        while i < n {
            let entry: String = search_paths.get_item(i).unwrap().extract().unwrap();
            if entry == "/launcher_test_register_then_import" {
                found = true;
            }
            i += 1;
        }
        assert!(found);
    });
}

#[test]
fn report_passes_successes_through_unchanged() {
    pyo3::Python::attach(|py| {
        let r = launcher::report(py, Ok::<u64, pyo3::PyErr>(7), Step::ImportModule);
        assert_eq!(r, Ok(7));
    });
}

#[test]
fn report_translates_failures_to_the_step_error() {
    pyo3::Python::attach(|py| {
        let raised = pyo3::exceptions::PyValueError::new_err("raised by the test");
        let r = launcher::report(py, Err::<u64, pyo3::PyErr>(raised), Step::InvokeEntry);
        assert_eq!(r, Err(BootError::EntryPoint));
    });
}

#[test]
fn broken_search_path_machinery_is_runtime_integration_error() {
    // A failure during search-path registration signals a broken deployment:
    // the boundary translation maps it to `RuntimeIntegration`.
    pyo3::Python::attach(|py| {
        let raised = pyo3::exceptions::PyAttributeError::new_err("raised by the test");
        let r = launcher::report(py, Err::<u64, pyo3::PyErr>(raised), Step::RegisterPath);
        assert_eq!(r, Err(BootError::RuntimeIntegration));
    });
}

#[test]
fn each_error_kind_has_its_own_diagnostic() {
    let kinds = [
        BootError::PathResolution,
        BootError::RuntimeIntegration,
        BootError::ModuleImport,
        BootError::EntryPoint,
    ];
    for a in 0..kinds.len() {
        assert!(!kinds[a].describe().is_empty());
        for b in 0..kinds.len() {
            if a != b {
                assert_ne!(kinds[a].describe(), kinds[b].describe());
            }
        }
    }
}

#[test]
fn path_resolution_diagnostic_names_the_directory_problem() {
    assert_eq!(
        BootError::PathResolution.describe(),
        "cannot resolve the application directory"
    );
}
