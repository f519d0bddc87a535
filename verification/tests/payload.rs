use wasm_runner::dylib_payload;
use wasm_runner::guest_payload;
use wasm_runner::native;

#[test]
fn native_add_matches_expected() {
    assert_eq!(native::native_add(5, 37), 42);
}

#[test]
fn native_fibonacci_table() {
    assert_eq!(native::native_fibonacci(0), 0);
    assert_eq!(native::native_fibonacci(1), 1);
    assert_eq!(native::native_fibonacci(2), 1);
    assert_eq!(native::native_fibonacci(5), 5);
    assert_eq!(native::native_fibonacci(10), 55);
}

#[test]
fn native_fibonacci_negative_returns_argument() {
    assert_eq!(native::native_fibonacci(-3), -3);
}

#[test]
fn native_fibonacci_largest_argument() {
    assert_eq!(native::native_fibonacci(46), 1836311903);
}

#[test]
fn dylib_reference_fibonacci_table() {
    assert_eq!(dylib_payload::dylib_fibonacci(0), 0);
    assert_eq!(dylib_payload::dylib_fibonacci(1), 1);
    assert_eq!(dylib_payload::dylib_fibonacci(2), 1);
    assert_eq!(dylib_payload::dylib_fibonacci(5), 5);
    assert_eq!(dylib_payload::dylib_fibonacci(10), 55);
}

#[test]
fn guest_reference_fibonacci_table() {
    assert_eq!(guest_payload::fibonacci(0), 0);
    assert_eq!(guest_payload::fibonacci(1), 1);
    assert_eq!(guest_payload::fibonacci(2), 1);
    assert_eq!(guest_payload::fibonacci(5), 5);
    assert_eq!(guest_payload::fibonacci(10), 55);
}

#[test]
fn addition_agrees_across_reference_payloads() {
    assert_eq!(native::native_add(5, 37), 42);
    assert_eq!(dylib_payload::dylib_add(5, 37), 42);
    assert_eq!(guest_payload::add(5, 37), 42);
}

#[test]
fn multiply_by_three_agrees_across_reference_payloads() {
    assert_eq!(native::native_multiply_by_three(7), 21);
    assert_eq!(dylib_payload::dylib_multiply_by_three(7), 21);
    assert_eq!(guest_payload::call_host_function(7), 21);
}

#[test]
fn host_function_triples_in_range() {
    assert_eq!(native::host_function(7), 21);
    assert_eq!(native::host_function(0), 0);
    assert_eq!(native::host_function(-4), -12);
    assert_eq!(native::host_function(715827882), 2147483646);
}

#[test]
fn host_function_saturates_out_of_range() {
    assert_eq!(native::host_function(715827883), i32::MAX);
    assert_eq!(native::host_function(i32::MAX), i32::MAX);
    assert_eq!(native::host_function(-715827883), i32::MIN);
    assert_eq!(native::host_function(i32::MIN), i32::MIN);
}
