use wasm_runner::backend::{BackendKind, CallableBackend, Payload};
use wasm_runner::errors::{CallError, SetupError};
use wasm_runner::guest::GuestBackend;

const GUEST_MODULE: &str = r#"
(module
  (import "host" "host_function" (func $host (param i32) (result i32)))
  (func (export "add") (param i32 i32) (result i32)
    local.get 0
    local.get 1
    i32.add)
  (func $fib (export "fibonacci") (param i32) (result i32)
    (if (result i32) (i32.le_s (local.get 0) (i32.const 1))
      (then (local.get 0))
      (else
        (i32.add
          (call $fib (i32.sub (local.get 0) (i32.const 1)))
          (call $fib (i32.sub (local.get 0) (i32.const 2)))))))
  (func (export "call_host_function") (param i32) (result i32)
    local.get 0
    call $host))
"#;

const GUEST_MODULE_WITHOUT_FIBONACCI: &str = r#"
(module
  (import "host" "host_function" (func $host (param i32) (result i32)))
  (func (export "add") (param i32 i32) (result i32)
    local.get 0
    local.get 1
    i32.add)
  (func (export "call_host_function") (param i32) (result i32)
    local.get 0
    call $host))
"#;

const GUEST_MODULE_WRONG_ADD_SIGNATURE: &str = r#"
(module
  (import "host" "host_function" (func $host (param i32) (result i32)))
  (func (export "add") (param i32) (result i32)
    local.get 0)
  (func $fib (export "fibonacci") (param i32) (result i32)
    local.get 0)
  (func (export "call_host_function") (param i32) (result i32)
    local.get 0
    call $host))
"#;

#[test]
fn guest_setup_succeeds() {
    let backend = GuestBackend::setup(GUEST_MODULE.as_bytes());
    assert!(backend.is_ok());
}

#[test]
fn guest_add_matches_expected() {
    let mut g = GuestBackend::setup(GUEST_MODULE.as_bytes()).unwrap();
    assert_eq!(g.invoke_add(5, 37).unwrap(), 42);
}

#[test]
fn guest_fibonacci_table() {
    let mut g = GuestBackend::setup(GUEST_MODULE.as_bytes()).unwrap();
    assert_eq!(g.invoke_fibonacci(0).unwrap(), 0);
    assert_eq!(g.invoke_fibonacci(1).unwrap(), 1);
    assert_eq!(g.invoke_fibonacci(2).unwrap(), 1);
    assert_eq!(g.invoke_fibonacci(5).unwrap(), 5);
    assert_eq!(g.invoke_fibonacci(10).unwrap(), 55);
}

#[test]
fn guest_host_round_trip_triples() {
    let mut g = GuestBackend::setup(GUEST_MODULE.as_bytes()).unwrap();
    assert_eq!(g.invoke_call_host_function(7).unwrap(), 21);
}

#[test]
fn guest_uniform_adapter_dispatch() {
    let mut g = GuestBackend::setup(GUEST_MODULE.as_bytes()).unwrap();
    assert_eq!(g.kind(), BackendKind::GuestModule);
    assert_eq!(g.invoke(Payload::Add { a: 5, b: 37 }), Ok(42));
    assert_eq!(g.invoke(Payload::Fibonacci { n: 10 }), Ok(55));
    assert_eq!(g.invoke(Payload::MultiplyByThree { x: 7 }), Ok(21));
}

#[test]
fn unbound_host_import_fails_instantiation() {
    let r = GuestBackend::setup_with_host_import(GUEST_MODULE.as_bytes(), false);
    assert!(matches!(r, Err(SetupError::UnresolvedImport)));
}

#[test]
fn malformed_binary_fails_compilation() {
    let r = GuestBackend::setup(b"this is not a guest module");
    assert!(matches!(r, Err(SetupError::Compile)));
}

#[test]
fn missing_export_is_detected() {
    let r = GuestBackend::setup(GUEST_MODULE_WITHOUT_FIBONACCI.as_bytes());
    assert!(matches!(r, Err(SetupError::ExportNotFound)));
}

#[test]
fn mismatched_export_signature_is_detected() {
    let r = GuestBackend::setup(GUEST_MODULE_WRONG_ADD_SIGNATURE.as_bytes());
    assert!(matches!(r, Err(SetupError::SignatureMismatch)));
}

#[test]
fn runaway_recursion_is_a_trap_not_a_crash() {
    let mut g = GuestBackend::setup(GUEST_MODULE.as_bytes()).unwrap();
    let r = g.invoke_fibonacci(10_000_000);
    assert!(matches!(r, Err(CallError::GuestTrap)));
}
