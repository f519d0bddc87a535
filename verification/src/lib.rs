//! A cross-backend function-execution benchmark library.
//!
//! The same three payload functions (integer addition, recursive Fibonacci,
//! and multiply-by-three through a host callback) are hosted by four
//! backends: native code, a dynamically loaded shared library, a sandboxed
//! WebAssembly module, and an embedded Lua interpreter.  Every backend is
//! driven through one uniform adapter interface, invoked with identical
//! inputs, compared for output equivalence, and timed under repeated
//! invocation by a single benchmark driver.

pub mod backend;
pub mod bench;
pub mod dylib;
pub mod dylib_payload;
pub mod errors;
pub mod guest;
pub mod guest_payload;
pub mod harness;
pub mod interp;
pub mod native;
