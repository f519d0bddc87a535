//! Error taxonomy of the harness.
//!
//! Setup failures are fatal: the cross-backend comparison is meaningless with
//! a missing backend.  Call failures are reported per invocation.

use vstd::prelude::*;

verus! {

/// A fatal failure while constructing one of the backends.
#[derive(Clone, Copy, Debug, PartialEq, Eq, Structural)]
pub enum SetupError {
    /// The shared-library artifact is missing or not loadable.
    Load,
    /// One of the expected symbols is absent from the shared library.
    SymbolNotFound,
    /// The guest module binary is malformed or fails validation.
    Compile,
    /// The guest module demands an import that was never registered.
    UnresolvedImport,
    /// The guest module lacks one of the expected exported functions.
    ExportNotFound,
    /// An exported guest function exists but has the wrong signature.
    SignatureMismatch,
    /// The interpreter source failed to parse or execute.
    ScriptLoad,
    /// An expected global function is absent after the script ran.
    FunctionNotFound,
}

/// A failure while invoking a backend or while benchmarking.
#[derive(Clone, Copy, Debug, PartialEq, Eq, Structural)]
pub enum CallError {
    /// The guest module trapped (for example on stack exhaustion).
    GuestTrap,
    /// The interpreter raised while running or marshalling a result.
    InterpreterCall,
    /// A benchmark was requested with an iteration count of zero.
    InvalidIterationCount,
}

impl SetupError {
    /// A short, attributable description of the failed setup operation.
    pub fn describe(&self) -> (r: &'static str)
        ensures
            *self is Load ==> r@ == "shared library artifact missing or not loadable"@,
            *self is SymbolNotFound ==> r@ == "shared library symbol not found"@,
            *self is Compile ==> r@ == "guest module binary failed to compile"@,
            *self is UnresolvedImport ==> r@ == "guest module import left unresolved"@,
            *self is ExportNotFound ==> r@ == "guest module export not found"@,
            *self is SignatureMismatch ==> r@ == "guest module export has mismatched signature"@,
            *self is ScriptLoad ==> r@ == "interpreter script failed to load"@,
            *self is FunctionNotFound ==> r@ == "interpreter global function not found"@,
    {
        match self {
            SetupError::Load => "shared library artifact missing or not loadable",
            SetupError::SymbolNotFound => "shared library symbol not found",
            SetupError::Compile => "guest module binary failed to compile",
            SetupError::UnresolvedImport => "guest module import left unresolved",
            SetupError::ExportNotFound => "guest module export not found",
            SetupError::SignatureMismatch => "guest module export has mismatched signature",
            SetupError::ScriptLoad => "interpreter script failed to load",
            SetupError::FunctionNotFound => "interpreter global function not found",
        }
    }
}

impl CallError {
    /// A short, attributable description of the failed call.
    pub fn describe(&self) -> (r: &'static str)
        ensures
            *self is GuestTrap ==> r@ == "guest module trapped during the call"@,
            *self is InterpreterCall ==> r@ == "interpreter raised during the call"@,
            *self is InvalidIterationCount ==> r@ == "benchmark iteration count must be positive"@,
    {
        match self {
            CallError::GuestTrap => "guest module trapped during the call",
            CallError::InterpreterCall => "interpreter raised during the call",
            CallError::InvalidIterationCount => "benchmark iteration count must be positive",
        }
    }
}

} // verus!
