use wasm_runner::backend::{BackendKind, CallableBackend, Payload};
use wasm_runner::bench::benchmark;
use wasm_runner::errors::CallError;
use wasm_runner::native::NativeBackend;

#[test]
fn zero_iterations_rejected() {
    let mut backend = NativeBackend;
    let r = benchmark(&mut backend, "zero".to_string(), 0, Payload::Add { a: 1, b: 2 });
    assert!(matches!(r, Err(CallError::InvalidIterationCount)));
}

#[test]
fn average_is_elapsed_over_iterations() {
    let mut backend = NativeBackend;
    let r = benchmark(&mut backend, "avg".to_string(), 1000, Payload::Fibonacci { n: 10 })
        .unwrap();
    assert_eq!(r.iterations, 1000);
    assert_eq!(r.average_nanos, r.elapsed_nanos / 1000);
    assert_eq!(r.last_value, 55);
    assert_eq!(r.label, "avg");
}

#[test]
fn last_value_is_the_payload_result() {
    let mut backend = NativeBackend;
    let r = benchmark(&mut backend, "mul".to_string(), 10, Payload::MultiplyByThree { x: 7 })
        .unwrap();
    assert_eq!(r.last_value, 21);
    let r = benchmark(&mut backend, "sum".to_string(), 10, Payload::Add { a: 5, b: 37 }).unwrap();
    assert_eq!(r.last_value, 42);
}

#[test]
fn native_backend_kind_tag() {
    let backend = NativeBackend;
    assert_eq!(backend.kind(), BackendKind::Native);
}

#[test]
fn native_invoke_never_fails_on_valid_payloads() {
    let mut backend = NativeBackend;
    assert_eq!(backend.invoke(Payload::Add { a: 5, b: 37 }), Ok(42));
    assert_eq!(backend.invoke(Payload::Fibonacci { n: 10 }), Ok(55));
    assert_eq!(backend.invoke(Payload::MultiplyByThree { x: 7 }), Ok(21));
}
