//! The Guest Runtime Bridge: one WebAssembly module run in a sandboxed
//! virtual machine.
//!
//! The guest can observe the world only through its declared imports.  Setup
//! follows a strict order: create an engine and an isolated store, define
//! the host callback, register it in a linker under the import namespace
//! `host` / name `host_function`, compile the guest binary, instantiate it
//! against the linker (which resolves all declared imports), and finally
//! look up and type-check the three exports.  All wasmtime calls stand
//! behind trusted wrappers; every result a guest function returns is opaque
//! to this crate, so the contracts promise only how failures are classified.

use vstd::prelude::*;

use crate::backend::{BackendKind, CallableBackend, Payload};
use crate::errors::{CallError, SetupError};

verus! {

#[verifier::external_type_specification]
#[verifier::external_body]
pub struct ExEngine(wasmtime::Engine);

#[verifier::external_type_specification]
#[verifier::external_body]
#[verifier::reject_recursive_types(T)]
pub struct ExStore<T: 'static>(wasmtime::Store<T>);

#[verifier::external_type_specification]
#[verifier::external_body]
#[verifier::reject_recursive_types(T)]
pub struct ExLinker<T>(wasmtime::Linker<T>);

#[verifier::external_type_specification]
#[verifier::external_body]
pub struct ExModule(wasmtime::Module);

#[verifier::external_type_specification]
#[verifier::external_body]
pub struct ExFunc(wasmtime::Func);

#[verifier::external_type_specification]
#[verifier::external_body]
#[verifier::reject_recursive_types(Params)]
#[verifier::reject_recursive_types(Results)]
pub struct ExTypedFunc<Params, Results>(wasmtime::TypedFunc<Params, Results>);

#[verifier::external_type_specification]
#[verifier::external_body]
pub struct ExInstance(wasmtime::Instance);

#[verifier::external_type_specification]
#[verifier::external_body]
pub struct ExWasmtimeError(wasmtime::Error);

/// Relies on wasmtime::Engine::default: a fresh execution engine with the
/// default configuration.
#[verifier::external_body]
fn new_engine() -> wasmtime::Engine {
    wasmtime::Engine::default()
}

/// Relies on wasmtime::Store::new: a fresh, isolated store owning the state
/// of one guest instance.
#[verifier::external_body]
fn new_store(engine: &wasmtime::Engine) -> wasmtime::Store<()> {
    wasmtime::Store::new(engine, ())
}

/// Relies on wasmtime::Linker::new: a fresh linker with no definitions.
#[verifier::external_body]
fn new_linker(engine: &wasmtime::Engine) -> wasmtime::Linker<()> {
    wasmtime::Linker::new(engine)
}

/// Relies on wasmtime::Func::wrap: makes a host function callable from the
/// guest.  The closure only calls this crate's verified host callback.
/// May abort on memory exhaustion, as any allocation may.
#[verifier::external_body]
fn wrap_host_function(store: &mut wasmtime::Store<()>) -> wasmtime::Func {
    wasmtime::Func::wrap(store, |x: i32| -> i32 { crate::native::host_function(x) })
}

/// Relies on wasmtime::Linker::define: registers `func` under the import
/// module `module` and name `name`; fails if that slot is already defined
/// or on memory exhaustion.
#[verifier::external_body]
fn define_import(
    linker: &mut wasmtime::Linker<()>,
    store: &wasmtime::Store<()>,
    module: &str,
    name: &str,
    func: wasmtime::Func,
) -> Result<(), wasmtime::Error> {
    match linker.define(store, module, name, func) {
        Ok(_) => Ok(()),
        Err(e) => Err(e),
    }
}

/// Relies on wasmtime::Module::new: compiles a guest binary (or text with
/// the `wat` feature), failing on anything malformed or unsupported.
#[verifier::external_body]
fn compile_module(
    engine: &wasmtime::Engine,
    bytes: &[u8],
) -> Result<wasmtime::Module, wasmtime::Error> {
    wasmtime::Module::new(engine, bytes)
}

/// Relies on wasmtime::Linker::instantiate: resolves every import the
/// module declares against the linker's definitions and runs the start
/// function, failing if any import is missing or mis-typed.  The linker,
/// store and module must come from the same engine, as they do everywhere
/// in this module.
#[verifier::external_body]
fn instantiate(
    linker: &wasmtime::Linker<()>,
    store: &mut wasmtime::Store<()>,
    module: &wasmtime::Module,
) -> Result<wasmtime::Instance, wasmtime::Error> {
    linker.instantiate(store, module)
}

/// Relies on wasmtime::Instance::get_func: `None` exactly when the instance
/// has no function export of that name.  The store must own the instance,
/// as it does for every instance this module creates.
#[verifier::external_body]
fn get_export_func(
    instance: &wasmtime::Instance,
    store: &mut wasmtime::Store<()>,
    name: &str,
) -> Option<wasmtime::Func> {
    instance.get_func(store, name)
}

/// Relies on wasmtime::Func::typed: type-checks the export against
/// `(i32, i32) -> i32`, failing on any signature mismatch.  The store must
/// own the function, as it does for every function this module looks up.
#[verifier::external_body]
fn typed_binary(
    func: &wasmtime::Func,
    store: &wasmtime::Store<()>,
) -> Result<wasmtime::TypedFunc<(i32, i32), i32>, wasmtime::Error> {
    func.typed::<(i32, i32), i32>(store)
}

/// Relies on wasmtime::Func::typed: type-checks the export against
/// `i32 -> i32`, failing on any signature mismatch.  The store must own the
/// function, as it does for every function this module looks up.
#[verifier::external_body]
fn typed_unary(
    func: &wasmtime::Func,
    store: &wasmtime::Store<()>,
) -> Result<wasmtime::TypedFunc<i32, i32>, wasmtime::Error> {
    func.typed::<i32, i32>(store)
}

/// The adapter for the sandboxed guest module: the store that owns the
/// instance's state, plus the three eagerly type-checked exports.  Every
/// handle here was created from this store, so the handles never outlive or
/// escape their backend.
pub struct GuestBackend {
    store: wasmtime::Store<()>,
    add_func: wasmtime::TypedFunc<(i32, i32), i32>,
    fib_func: wasmtime::TypedFunc<i32, i32>,
    call_host_func: wasmtime::TypedFunc<i32, i32>,
}

/// Relies on wasmtime::TypedFunc::call: runs the guest's `add` export; an
/// error is a guest trap (or a violated engine limit).  The function was
/// created from this same backend's store.
#[verifier::external_body]
fn call_guest_binary(
    backend: &mut GuestBackend,
    a: i32,
    b: i32,
) -> Result<i32, wasmtime::Error> {
    backend.add_func.call(&mut backend.store, (a, b))
}

/// Relies on wasmtime::TypedFunc::call: runs the guest's `fibonacci`
/// export; an error is a guest trap (such as stack exhaustion).  The
/// function was created from this same backend's store.
#[verifier::external_body]
fn call_guest_fibonacci(backend: &mut GuestBackend, n: i32) -> Result<i32, wasmtime::Error> {
    backend.fib_func.call(&mut backend.store, n)
}

/// Relies on wasmtime::TypedFunc::call: runs the guest's
/// `call_host_function` export, a guest-to-host-to-guest round trip; an
/// error is a guest trap.  The function was created from this same
/// backend's store.
#[verifier::external_body]
fn call_guest_host_round_trip(backend: &mut GuestBackend, x: i32) -> Result<i32, wasmtime::Error> {
    backend.call_host_func.call(&mut backend.store, x)
}

impl GuestBackend {
    /// Builds the guest backend from the module's binary, with the host
    /// import bound.
    pub fn setup(module_bytes: &[u8]) -> (r: Result<GuestBackend, SetupError>)
        ensures
            r matches Err(e) ==> (e is Compile || e is UnresolvedImport || e is ExportNotFound
                || e is SignatureMismatch),
    {
        GuestBackend::setup_with_host_import(module_bytes, true)
    }

    /// Builds the guest backend, binding the `host`/`host_function` import
    /// only when asked to.  Instantiating a module that demands the import
    /// while it is left unbound fails, and every instantiation failure is
    /// reported as an unresolved import — the only instantiation failure a
    /// well-formed guest artifact can produce here.  Compilation failures,
    /// missing exports and mis-typed exports each get their own error.
    pub fn setup_with_host_import(module_bytes: &[u8], bind_host_import: bool) -> (r: Result<
        GuestBackend,
        SetupError,
    >)
        ensures
            r matches Err(e) ==> (e is Compile || e is UnresolvedImport || e is ExportNotFound
                || e is SignatureMismatch),
    {
        let engine = new_engine();
        let mut store = new_store(&engine);
        let mut linker = new_linker(&engine);
        if bind_host_import {
            let host_func = wrap_host_function(&mut store);
            match define_import(&mut linker, &store, "host", "host_function", host_func) {
                Ok(u) => u,
                Err(_) => {
                    // The slot could not be filled, so the module's import
                    // would be left unresolved.
                    return Err(SetupError::UnresolvedImport);
                },
            }
        }
        let module = match compile_module(&engine, module_bytes) {
            Ok(m) => m,
            Err(_) => {
                return Err(SetupError::Compile);
            },
        };
        let instance = match instantiate(&linker, &mut store, &module) {
            Ok(i) => i,
            Err(_) => {
                return Err(SetupError::UnresolvedImport);
            },
        };
        let add_raw = match get_export_func(&instance, &mut store, "add") {
            Some(f) => f,
            None => {
                return Err(SetupError::ExportNotFound);
            },
        };
        let add_func = match typed_binary(&add_raw, &store) {
            Ok(f) => f,
            Err(_) => {
                return Err(SetupError::SignatureMismatch);
            },
        };
        let fib_raw = match get_export_func(&instance, &mut store, "fibonacci") {
            Some(f) => f,
            None => {
                return Err(SetupError::ExportNotFound);
            },
        };
        let fib_func = match typed_unary(&fib_raw, &store) {
            Ok(f) => f,
            Err(_) => {
                return Err(SetupError::SignatureMismatch);
            },
        };
        let call_host_raw = match get_export_func(&instance, &mut store, "call_host_function") {
            Some(f) => f,
            None => {
                return Err(SetupError::ExportNotFound);
            },
        };
        let call_host_func = match typed_unary(&call_host_raw, &store) {
            Ok(f) => f,
            Err(_) => {
                return Err(SetupError::SignatureMismatch);
            },
        };
        Ok(GuestBackend { store, add_func, fib_func, call_host_func })
    }

    /// Invokes the guest's `add` export.
    pub fn invoke_add(&mut self, a: i32, b: i32) -> (r: Result<i32, CallError>)
        ensures
            r matches Err(e) ==> e is GuestTrap,
    {
        match call_guest_binary(self, a, b) {
            Ok(v) => Ok(v),
            Err(_) => Err(CallError::GuestTrap),
        }
    }

    /// Invokes the guest's `fibonacci` export.
    pub fn invoke_fibonacci(&mut self, n: i32) -> (r: Result<i32, CallError>)
        ensures
            r matches Err(e) ==> e is GuestTrap,
    {
        match call_guest_fibonacci(self, n) {
            Ok(v) => Ok(v),
            Err(_) => Err(CallError::GuestTrap),
        }
    }

    /// Invokes the guest's `call_host_function` export: a cross-boundary
    /// round trip through the bound host callback.
    pub fn invoke_call_host_function(&mut self, x: i32) -> (r: Result<i32, CallError>)
        ensures
            r matches Err(e) ==> e is GuestTrap,
    {
        match call_guest_host_round_trip(self, x) {
            Ok(v) => Ok(v),
            Err(_) => Err(CallError::GuestTrap),
        }
    }
}

impl GuestBackend {
    /// The backend kind tag, for report labels.
    pub fn kind(&self) -> (k: BackendKind)
        ensures
            k == BackendKind::GuestModule,
    {
        BackendKind::GuestModule
    }
}

impl CallableBackend for GuestBackend {
    fn invoke(&mut self, payload: Payload) -> (r: Result<i32, CallError>) {
        match payload {
            Payload::Add { a, b } => self.invoke_add(a, b),
            Payload::Fibonacci { n } => self.invoke_fibonacci(n),
            Payload::MultiplyByThree { x } => self.invoke_call_host_function(x),
        }
    }
}

} // verus!
