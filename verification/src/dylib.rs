//! The decision logic of the Dynamic Module Loader.
//!
//! Opening a shared library and resolving raw symbols from it are `unsafe`
//! foreign-function calls, so they live outside the verified library, in
//! the surrounding binary.  What is verified here is everything the loader
//! decides: the platform-appropriate artifact path and the three symbol
//! names that must be resolved, eagerly, before any call is made.  The
//! loader fails with [`crate::errors::SetupError::Load`] when the artifact
//! is missing or not loadable, and with
//! [`crate::errors::SetupError::SymbolNotFound`] when one of the three
//! names is absent.

use vstd::prelude::*;

verus! {

/// The operating systems the loader distinguishes, each with its own
/// shared-library naming convention.
#[derive(Clone, Copy, Debug, PartialEq, Eq, Structural)]
pub enum TargetPlatform {
    Windows,
    MacOs,
    Linux,
}

/// The fixed, platform-appropriate path of the shared-library artifact.
pub fn dylib_artifact_path(platform: TargetPlatform) -> (r: &'static str)
    ensures
        platform is Windows ==> r@ == "../rust_dylib/target/release/rust_dylib.dll"@,
        platform is MacOs ==> r@ == "../rust_dylib/target/release/librust_dylib.dylib"@,
        platform is Linux ==> r@ == "../rust_dylib/target/release/librust_dylib.so"@,
{
    match platform {
        TargetPlatform::Windows => "../rust_dylib/target/release/rust_dylib.dll",
        TargetPlatform::MacOs => "../rust_dylib/target/release/librust_dylib.dylib",
        TargetPlatform::Linux => "../rust_dylib/target/release/librust_dylib.so",
    }
}

/// The three symbol names the loader must resolve, in payload order:
/// addition, Fibonacci, multiply-by-three.
pub fn dylib_symbol_names() -> (r: (&'static str, &'static str, &'static str))
    ensures
        r.0@ == "dylib_add"@,
        r.1@ == "dylib_fibonacci"@,
        r.2@ == "dylib_multiply_by_three"@,
{
    ("dylib_add", "dylib_fibonacci", "dylib_multiply_by_three")
}

} // verus!
