//! The uniform adapter interface over the four backend kinds.
//!
//! Every backend, whatever its loading model, is invoked through
//! [`CallableBackend::invoke`] with a [`Payload`] naming one of the three
//! logical functions and its arguments.  Symbol and type resolution happen
//! once, eagerly, when a backend is constructed; `invoke` itself never
//! resolves anything.

use vstd::prelude::*;

use crate::errors::CallError;
use crate::native::fib;

verus! {

/// The four function-hosting environments.
#[derive(Clone, Copy, Debug, PartialEq, Eq, Structural)]
pub enum BackendKind {
    Native,
    DynamicLibrary,
    GuestModule,
    Interpreter,
}

/// One logical payload function together with its arguments.
#[derive(Clone, Copy, Debug, PartialEq, Eq, Structural)]
pub enum Payload {
    Add { a: i32, b: i32 },
    Fibonacci { n: i32 },
    MultiplyByThree { x: i32 },
}

impl Payload {
    /// The arguments keep every backend's `i32` arithmetic in range.
    pub open spec fn wf(self) -> bool {
        match self {
            Payload::Add { a, b } => i32::MIN <= a + b <= i32::MAX,
            Payload::Fibonacci { n } => n <= 46,
            Payload::MultiplyByThree { x } => -715827882 <= x <= 715827882,
        }
    }

    /// The value the reference (native) semantics assigns to the payload.
    pub open spec fn reference_value(self) -> int {
        match self {
            Payload::Add { a, b } => a + b,
            Payload::Fibonacci { n } => if n >= 0 {
                fib(n as nat) as int
            } else {
                n as int
            },
            Payload::MultiplyByThree { x } => 3 * x,
        }
    }
}

/// A uniform, invocable handle into one backend.
///
/// `invoke` may fail only with a per-call error of the backend itself (a
/// guest trap or an interpreter exception); an adapter whose results are
/// this crate's own verified functions declares so through
/// `returns_reference_value` and then always returns the reference value.
pub trait CallableBackend: Sized {
    /// True when every successful invocation is known to return the
    /// reference value (the native adapter); false, as assumed here, for
    /// backends whose results come from outside this crate.
    open spec fn returns_reference_value() -> bool {
        false
    }

    /// Invoke one payload function on this backend.
    fn invoke(&mut self, payload: Payload) -> (r: Result<i32, CallError>)
        requires
            payload.wf(),
        ensures
            r matches Err(e) ==> (e is GuestTrap || e is InterpreterCall),
            Self::returns_reference_value() ==> (r matches Ok(v) && v
                == payload.reference_value()),
    ;
}

} // verus!
