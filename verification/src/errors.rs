//! Error taxonomy of the bootstrap launcher.
//!
//! Every failure of a bootstrap step maps to exactly one of these kinds;
//! all of them are fatal and none is ever retried.

use vstd::prelude::*;

verus! {

/// What went wrong during bootstrap.
///
/// Each variant corresponds to one fallible step of the launch sequence:
/// - `PathResolution`: the application directory is missing or inaccessible.
/// - `RuntimeIntegration`: the interpreter's module-path machinery is absent
///   or incompatible (a broken deployment, not a user error).
/// - `ModuleImport`: the application module failed to load.
/// - `EntryPoint`: the entry attribute is missing, not callable, or raised.
#[derive(Clone, Copy, Debug, PartialEq, Eq, Structural)]
pub enum BootError {
    PathResolution,
    RuntimeIntegration,
    ModuleImport,
    EntryPoint,
}

impl BootError {
    /// A one-line diagnostic for this error kind.
    pub fn describe(&self) -> (r: &'static str)
        ensures
            r@ == self.describe_spec(),
    {
        match self {
            BootError::PathResolution => "cannot resolve the application directory",
            BootError::RuntimeIntegration => "interpreter module-path machinery is unavailable",
            BootError::ModuleImport => "application module failed to load",
            BootError::EntryPoint => "entry point is missing, not callable, or raised",
        }
    }

    /// The diagnostic text of each kind, as a mathematical sequence of characters.
    pub open spec fn describe_spec(self) -> Seq<char> {
        match self {
            BootError::PathResolution => "cannot resolve the application directory"@,
            BootError::RuntimeIntegration => "interpreter module-path machinery is unavailable"@,
            BootError::ModuleImport => "application module failed to load"@,
            BootError::EntryPoint => "entry point is missing, not callable, or raised"@,
        }
    }
}

} // verus!
