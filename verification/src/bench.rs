//! The benchmark driver: the simplest fair timing protocol.
//!
//! One payload is run a fixed number of times sequentially on one backend;
//! wall-clock time is taken immediately before the first call and
//! immediately after the last, and only the last returned value is kept (a
//! human sanity-check value that also keeps the calls from being optimized
//! away).  No warm-up, no outlier rejection, no concurrency.

use vstd::prelude::*;

use crate::backend::{CallableBackend, Payload};
use crate::errors::CallError;

verus! {

#[verifier::external_type_specification]
#[verifier::external_body]
pub struct ExInstant(std::time::Instant);

/// Relies on std::time::Instant::now: an opaque reading of the machine's
/// monotonic clock.  Nothing can be promised of a clock value.
#[verifier::external_body]
fn clock_now() -> std::time::Instant {
    std::time::Instant::now()
}

/// Relies on std::time::Instant::elapsed, converted to whole nanoseconds by
/// std::time::Duration::as_nanos.  The value depends on the machine's clock,
/// so nothing is promised of it.
#[verifier::external_body]
fn nanos_since(start: &std::time::Instant) -> u128 {
    start.elapsed().as_nanos()
}

/// The outcome of one successful benchmark run.  Ephemeral: reported, never
/// persisted.
pub struct BenchmarkResult {
    pub label: String,
    pub iterations: u32,
    pub elapsed_nanos: u128,
    pub average_nanos: u128,
    pub last_value: i32,
}

impl BenchmarkResult {
    /// The iteration count is positive and the reported average is exactly
    /// the elapsed time divided by the iteration count, in whole
    /// nanoseconds.
    pub open spec fn wf(self) -> bool {
        &&& self.iterations > 0
        &&& self.average_nanos == self.elapsed_nanos / (self.iterations as u128)
    }
}

/// Runs `payload` on `backend` exactly `iterations` times sequentially and
/// reports elapsed wall-clock time, the derived per-call average, and the
/// last returned value.  An iteration count of zero is invalid: the average
/// would be undefined.
pub fn benchmark<B: CallableBackend>(
    backend: &mut B,
    label: String,
    iterations: u32,
    payload: Payload,
) -> (r: Result<BenchmarkResult, CallError>)
    requires
        payload.wf(),
    ensures
        iterations == 0 ==> (r matches Err(e) && e is InvalidIterationCount),
        (r matches Err(e) && e is InvalidIterationCount) ==> iterations == 0,
        B::returns_reference_value() && iterations > 0 ==> r is Ok,
        r matches Ok(b) ==> {
            &&& b.wf()
            &&& b.iterations == iterations
            &&& b.label@ == label@
            &&& B::returns_reference_value() ==> b.last_value == payload.reference_value()
        },
{
    if iterations == 0 {
        return Err(CallError::InvalidIterationCount);
    }
    let start = clock_now();
    let mut last: i32 = 0;
    let mut i: u32 = 0;
    while i < iterations
        invariant
            0 < iterations,
            i <= iterations,
            payload.wf(),
            B::returns_reference_value() && i > 0 ==> last == payload.reference_value(),
        decreases iterations - i,
    {
        match backend.invoke(payload) {
            Ok(v) => {
                last = v;
            },
            Err(e) => {
                return Err(e);
            },
        }
        i = i + 1;
    }
    let elapsed = nanos_since(&start);
    let average = elapsed / (iterations as u128);
    Ok(
        BenchmarkResult {
            label,
            iterations,
            elapsed_nanos: elapsed,
            average_nanos: average,
            last_value: last,
        },
    )
}

} // verus!
