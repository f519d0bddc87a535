//! The orchestrator's verified core: the fixed configuration, the one-shot
//! cross-backend correctness pass, and the per-backend benchmark suite.
//!
//! The surrounding binary composes the four backends (the dynamic-library
//! one cannot be constructed here, since raw symbol binding is `unsafe`),
//! hands the values observed from it to [`check_equivalence`], and prints
//! the reports; everything that decides or computes stands here.

use vstd::prelude::*;

use crate::backend::{CallableBackend, Payload};
use crate::bench::{benchmark, BenchmarkResult};
use crate::errors::CallError;
use crate::native::fib;

verus! {

/// The orchestrator's configuration: iteration counts and the fixed inputs
/// handed to every backend.
#[derive(Clone, Copy, Debug, PartialEq, Eq, Structural)]
pub struct HarnessConfig {
    /// Iteration count for the O(1) payloads.
    pub iterations: u32,
    /// Smaller iteration count for the exponential Fibonacci payload.
    pub fib_iterations: u32,
    /// First argument of the addition payload.
    pub add_lhs: i32,
    /// Second argument of the addition payload.
    pub add_rhs: i32,
    /// Argument of the Fibonacci payload.
    pub fib_arg: i32,
    /// Argument of the multiply-by-three payload.
    pub mul_arg: i32,
}

impl HarnessConfig {
    /// Positive iteration counts, and inputs on which every backend's
    /// `i32` arithmetic is defined.
    pub open spec fn wf(self) -> bool {
        &&& self.iterations > 0
        &&& self.fib_iterations > 0
        &&& i32::MIN <= self.add_lhs + self.add_rhs <= i32::MAX
        &&& self.fib_arg <= 46
        &&& -715827882 <= self.mul_arg <= 715827882
    }

    /// The fixed configuration of the harness: a million iterations for the
    /// O(1) payloads, a thousand for Fibonacci, inputs (5, 37), 10 and 7.
    pub fn standard() -> (c: HarnessConfig)
        ensures
            c.wf(),
            c.iterations == 1000000,
            c.fib_iterations == 1000,
            c.add_lhs == 5 && c.add_rhs == 37,
            c.fib_arg == 10,
            c.mul_arg == 7,
    {
        HarnessConfig {
            iterations: 1000000,
            fib_iterations: 1000,
            add_lhs: 5,
            add_rhs: 37,
            fib_arg: 10,
            mul_arg: 7,
        }
    }
}

/// The outputs of the three payloads observed on one backend.
#[derive(Clone, Copy, Debug, PartialEq, Eq, Structural)]
pub struct PayloadOutputs {
    pub sum: i32,
    pub fib: i32,
    pub triple: i32,
}

/// Two backends agree when all three observed outputs match.
pub open spec fn outputs_agree(a: PayloadOutputs, b: PayloadOutputs) -> bool {
    a.sum == b.sum && a.fib == b.fib && a.triple == b.triple
}

/// Runs the three payloads once each on `backend` with the configured
/// inputs.  On the backend whose results are this crate's own verified
/// functions, the outputs are pinned to the reference values.
pub fn observe_outputs<B: CallableBackend>(backend: &mut B, config: &HarnessConfig) -> (r: Result<
    PayloadOutputs,
    CallError,
>)
    requires
        config.wf(),
    ensures
        r matches Err(e) ==> (e is GuestTrap || e is InterpreterCall),
        B::returns_reference_value() ==> r is Ok,
        r matches Ok(o) ==> B::returns_reference_value() ==> {
            &&& o.sum == config.add_lhs + config.add_rhs
            &&& (config.fib_arg >= 0 ==> o.fib == fib(config.fib_arg as nat))
            &&& (config.fib_arg < 0 ==> o.fib == config.fib_arg)
            &&& o.triple == 3 * config.mul_arg
        },
{
    let sum = match backend.invoke(Payload::Add { a: config.add_lhs, b: config.add_rhs }) {
        Ok(v) => v,
        Err(e) => {
            return Err(e);
        },
    };
    let fib_out = match backend.invoke(Payload::Fibonacci { n: config.fib_arg }) {
        Ok(v) => v,
        Err(e) => {
            return Err(e);
        },
    };
    let triple = match backend.invoke(Payload::MultiplyByThree { x: config.mul_arg }) {
        Ok(v) => v,
        Err(e) => {
            return Err(e);
        },
    };
    Ok(PayloadOutputs { sum, fib: fib_out, triple })
}

/// The one-shot correctness comparison across the four backends.
#[derive(Clone, Copy, Debug, PartialEq, Eq, Structural)]
pub struct EquivalenceReport {
    pub native: PayloadOutputs,
    pub guest: PayloadOutputs,
    pub interpreter: PayloadOutputs,
    pub dynamic_library: PayloadOutputs,
    /// True exactly when all four backends produced identical outputs.
    pub all_agree: bool,
}

/// Assembles the correctness report, asserting equivalence rather than
/// leaving it to visual comparison: `all_agree` holds exactly when every
/// backend matched the native outputs.
pub fn check_equivalence(
    native: PayloadOutputs,
    guest: PayloadOutputs,
    interpreter: PayloadOutputs,
    dynamic_library: PayloadOutputs,
) -> (r: EquivalenceReport)
    ensures
        r.native == native,
        r.guest == guest,
        r.interpreter == interpreter,
        r.dynamic_library == dynamic_library,
        r.all_agree <==> (outputs_agree(native, guest) && outputs_agree(native, interpreter)
            && outputs_agree(native, dynamic_library)),
{
    let all_agree = native == guest && native == interpreter && native == dynamic_library;
    EquivalenceReport { native, guest, interpreter, dynamic_library, all_agree }
}

/// Benchmarks the three payloads on one backend: the configured large
/// iteration count for addition and the host-call path, the smaller one
/// for Fibonacci.  The three labels are taken in payload order.
pub fn benchmark_payloads<B: CallableBackend>(
    backend: &mut B,
    config: &HarnessConfig,
    add_label: String,
    fib_label: String,
    mul_label: String,
) -> (r: Result<Vec<BenchmarkResult>, CallError>)
    requires
        config.wf(),
    ensures
        r matches Err(e) ==> (e is GuestTrap || e is InterpreterCall),
        B::returns_reference_value() ==> r is Ok,
        r matches Ok(v) ==> {
            &&& v@.len() == 3
            &&& v@[0].wf() && v@[0].iterations == config.iterations && v@[0].label@ == add_label@
            &&& v@[1].wf() && v@[1].iterations == config.fib_iterations && v@[1].label@
                == fib_label@
            &&& v@[2].wf() && v@[2].iterations == config.iterations && v@[2].label@ == mul_label@
            &&& B::returns_reference_value() ==> {
                &&& v@[0].last_value == config.add_lhs + config.add_rhs
                &&& v@[2].last_value == 3 * config.mul_arg
            }
        },
{
    let add_run = match benchmark(
        backend,
        add_label,
        config.iterations,
        Payload::Add { a: config.add_lhs, b: config.add_rhs },
    ) {
        Ok(b) => b,
        Err(e) => {
            return Err(e);
        },
    };
    let fib_run = match benchmark(
        backend,
        fib_label,
        config.fib_iterations,
        Payload::Fibonacci { n: config.fib_arg },
    ) {
        Ok(b) => b,
        Err(e) => {
            return Err(e);
        },
    };
    let mul_run = match benchmark(
        backend,
        mul_label,
        config.iterations,
        Payload::MultiplyByThree { x: config.mul_arg },
    ) {
        Ok(b) => b,
        Err(e) => {
            return Err(e);
        },
    };
    let mut out: Vec<BenchmarkResult> = Vec::new();
    out.push(add_run);
    out.push(fib_run);
    out.push(mul_run);
    Ok(out)
}

} // verus!
