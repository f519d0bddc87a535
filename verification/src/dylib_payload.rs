//! Reference semantics of the shared-library artifact's three exports.
//!
//! The artifact itself is a separately built shared library exporting these
//! functions under the C ABI; the definitions here are the same
//! computations, verified, and serve as the contract a conforming artifact
//! must meet.

use vstd::prelude::*;

use crate::native::fib;

verus! {

/// The shared library's `dylib_add` export: integer addition.
pub fn dylib_add(a: i32, b: i32) -> (r: i32)
    requires
        i32::MIN <= a + b <= i32::MAX,
    ensures
        r == a + b,
{
    a + b
}

/// The shared library's `dylib_fibonacci` export: naive recursive
/// Fibonacci.  Arguments above 46 would overflow `i32`; negative arguments
/// are returned unchanged.
pub fn dylib_fibonacci(n: i32) -> (r: i32)
    requires
        n <= 46,
    ensures
        n >= 0 ==> r == fib(n as nat),
        n < 0 ==> r == n,
    decreases n,
{
    if n <= 1 {
        return n;
    }
    let a = dylib_fibonacci(n - 1);
    let b = dylib_fibonacci(n - 2);
    proof {
        crate::native::lemma_fib_fits_i32(n as nat);
    }
    a + b
}

/// The shared library's `dylib_multiply_by_three` export.
pub fn dylib_multiply_by_three(x: i32) -> (r: i32)
    requires
        -715827882 <= x <= 715827882,
    ensures
        r == 3 * x,
{
    x * 3
}

} // verus!
