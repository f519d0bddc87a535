use wasm_runner::dylib::{dylib_artifact_path, dylib_symbol_names, TargetPlatform};
use wasm_runner::errors::CallError;

#[test]
fn artifact_path_per_platform() {
    assert_eq!(
        dylib_artifact_path(TargetPlatform::Windows),
        "../rust_dylib/target/release/rust_dylib.dll"
    );
    assert_eq!(
        dylib_artifact_path(TargetPlatform::MacOs),
        "../rust_dylib/target/release/librust_dylib.dylib"
    );
    assert_eq!(
        dylib_artifact_path(TargetPlatform::Linux),
        "../rust_dylib/target/release/librust_dylib.so"
    );
}

#[test]
fn symbol_names_in_payload_order() {
    let (add_name, fib_name, mul_name) = dylib_symbol_names();
    assert_eq!(add_name, "dylib_add");
    assert_eq!(fib_name, "dylib_fibonacci");
    assert_eq!(mul_name, "dylib_multiply_by_three");
}

#[test]
fn call_error_descriptions_are_distinct() {
    let errors = [
        CallError::GuestTrap,
        CallError::InterpreterCall,
        CallError::InvalidIterationCount,
    ];
    for (i, a) in errors.iter().enumerate() {
        for (j, b) in errors.iter().enumerate() {
            if i != j {
                assert_ne!(a.describe(), b.describe());
            }
        }
    }
}
