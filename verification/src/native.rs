//! The native backend: the three payload functions compiled straight into
//! this crate, plus the host callback that the guest module imports.
//!
//! These definitions double as the reference semantics that every other
//! backend is compared against.

use vstd::prelude::*;

verus! {

/// The Fibonacci sequence: 0, 1, 1, 2, 3, 5, 8, ...
pub open spec fn fib(n: nat) -> nat
    decreases n,
{
    if n <= 1 {
        n
    } else {
        fib((n - 1) as nat) + fib((n - 2) as nat)
    }
}

/// The Fibonacci sequence never decreases.
pub proof fn lemma_fib_monotonic(a: nat, b: nat)
    requires
        a <= b,
    ensures
        fib(a) <= fib(b),
    decreases b,
{
    if a < b {
        lemma_fib_monotonic(a, (b - 1) as nat);
    }
}

/// The largest argument for which the Fibonacci value still fits in `i32`.
pub proof fn lemma_fib_fits_i32(n: nat)
    requires
        n <= 46,
    ensures
        fib(n) <= 1836311903,
{
    lemma_fib_monotonic(n, 46);
    assert(fib(0) == 0);
    assert(fib(1) == 1);
    assert(fib(2) == 1);
    assert(fib(3) == 2);
    assert(fib(4) == 3);
    assert(fib(5) == 5);
    assert(fib(6) == 8);
    assert(fib(7) == 13);
    assert(fib(8) == 21);
    assert(fib(9) == 34);
    assert(fib(10) == 55);
    assert(fib(11) == 89);
    assert(fib(12) == 144);
    assert(fib(13) == 233);
    assert(fib(14) == 377);
    assert(fib(15) == 610);
    assert(fib(16) == 987);
    assert(fib(17) == 1597);
    assert(fib(18) == 2584);
    assert(fib(19) == 4181);
    assert(fib(20) == 6765);
    assert(fib(21) == 10946);
    assert(fib(22) == 17711);
    assert(fib(23) == 28657);
    assert(fib(24) == 46368);
    assert(fib(25) == 75025);
    assert(fib(26) == 121393);
    assert(fib(27) == 196418);
    assert(fib(28) == 317811);
    assert(fib(29) == 514229);
    assert(fib(30) == 832040);
    assert(fib(31) == 1346269);
    assert(fib(32) == 2178309);
    assert(fib(33) == 3524578);
    assert(fib(34) == 5702887);
    assert(fib(35) == 9227465);
    assert(fib(36) == 14930352);
    assert(fib(37) == 24157817);
    assert(fib(38) == 39088169);
    assert(fib(39) == 63245986);
    assert(fib(40) == 102334155);
    assert(fib(41) == 165580141);
    assert(fib(42) == 267914296);
    assert(fib(43) == 433494437);
    assert(fib(44) == 701408733);
    assert(fib(45) == 1134903170);
    assert(fib(46) == 1836311903);
}

/// Integer addition, the O(1) payload.
pub fn native_add(a: i32, b: i32) -> (r: i32)
    requires
        i32::MIN <= a + b <= i32::MAX,
    ensures
        r == a + b,
{
    a + b
}

/// Naive recursive Fibonacci, the exponential payload.  Arguments above 46
/// would overflow `i32`; negative arguments are returned unchanged.
pub fn native_fibonacci(n: i32) -> (r: i32)
    requires
        n <= 46,
    ensures
        n >= 0 ==> r == fib(n as nat),
        n < 0 ==> r == n,
    decreases n,
{
    if n <= 1 {
        return n;
    }
    let a = native_fibonacci(n - 1);
    let b = native_fibonacci(n - 2);
    proof {
        lemma_fib_fits_i32(n as nat);
    }
    a + b
}

/// Multiplication by three, the payload that the guest reaches through a
/// cross-boundary call.
pub fn native_multiply_by_three(x: i32) -> (r: i32)
    requires
        -715827882 <= x <= 715827882,
    ensures
        r == 3 * x,
{
    x * 3
}

/// The host callback exported to the guest module.  The guest may hand it any
/// `i32`, so it is total: products outside the `i32` range saturate to the
/// nearest representable value instead of wrapping or panicking.
pub fn host_function(x: i32) -> (r: i32)
    ensures
        -715827882 <= x <= 715827882 ==> r == 3 * x,
        x > 715827882 ==> r == i32::MAX,
        x < -715827882 ==> r == i32::MIN,
{
    match x.checked_mul(3) {
        Some(v) => v,
        None => if x > 0 { i32::MAX } else { i32::MIN },
    }
}

/// The adapter for natively compiled payloads.  Statically linked: there is
/// nothing to resolve and nothing that can fail at call time.
pub struct NativeBackend;

impl NativeBackend {
    /// The backend kind tag, for report labels.
    pub fn kind(&self) -> (k: crate::backend::BackendKind)
        ensures
            k == crate::backend::BackendKind::Native,
    {
        crate::backend::BackendKind::Native
    }
}

impl crate::backend::CallableBackend for NativeBackend {
    open spec fn returns_reference_value() -> bool {
        true
    }

    fn invoke(&mut self, payload: crate::backend::Payload) -> (r: Result<
        i32,
        crate::errors::CallError,
    >) {
        match payload {
            crate::backend::Payload::Add { a, b } => Ok(native_add(a, b)),
            crate::backend::Payload::Fibonacci { n } => Ok(native_fibonacci(n)),
            crate::backend::Payload::MultiplyByThree { x } => Ok(native_multiply_by_three(x)),
        }
    }
}

} // verus!
