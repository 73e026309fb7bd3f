//! Bootstrap launcher for an embedded Python runtime.
//!
//! The launcher registers a resolved application directory on the
//! interpreter's module search path, imports the application module, and
//! invokes its entry function, translating every interpreter failure into a
//! small error taxonomy. `machine` is the model of the launch sequence and
//! carries the proofs of its ordering and termination properties; `launch`
//! is the executable driver; `errors` is the taxonomy.

pub mod errors;
pub mod launch;
pub mod machine;
mod runtime;

pub use errors::BootError;
pub use launch::bootstrap;
pub use launch::import_and_invoke;
pub use launch::register_search_path;
pub use launch::report;
pub use launch::run;
pub use launch::run_in;
pub use machine::Phase;
pub use machine::Step;
