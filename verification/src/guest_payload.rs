//! Reference semantics of the guest module's three exports.
//!
//! The artifact itself is a separately built WebAssembly binary; the
//! definitions here are the same computations, verified, and serve as the
//! contract a conforming guest module must meet.  `call_host_function`
//! forwards its argument to the imported host callback, so its reference
//! semantics are exactly those of [`crate::native::host_function`].

use vstd::prelude::*;

use crate::native::fib;

verus! {

/// The guest module's `add` export: integer addition.
pub fn add(a: i32, b: i32) -> (r: i32)
    requires
        i32::MIN <= a + b <= i32::MAX,
    ensures
        r == a + b,
{
    a + b
}

/// The guest module's `fibonacci` export: naive recursive Fibonacci.
/// Arguments above 46 would overflow `i32`; negative arguments are
/// returned unchanged.
pub fn fibonacci(n: i32) -> (r: i32)
    requires
        n <= 46,
    ensures
        n >= 0 ==> r == fib(n as nat),
        n < 0 ==> r == n,
    decreases n,
{
    if n <= 1 {
        return n;
    }
    let a = fibonacci(n - 1);
    let b = fibonacci(n - 2);
    proof {
        crate::native::lemma_fib_fits_i32(n as nat);
    }
    a + b
}

/// The guest module's `call_host_function` export: one guest-to-host round
/// trip through the declared `host`/`host_function` import.
pub fn call_host_function(x: i32) -> (r: i32)
    ensures
        -715827882 <= x <= 715827882 ==> r == 3 * x,
        x > 715827882 ==> r == i32::MAX,
        x < -715827882 ==> r == i32::MIN,
{
    crate::native::host_function(x)
}

} // verus!
