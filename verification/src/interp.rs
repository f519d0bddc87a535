//! The Interpreter Host: the three payload functions defined in an embedded
//! Lua runtime.
//!
//! Setup injects a fixed script defining `add`, `fibonacci` and
//! `multiply_by_three`, together with zero-argument wrapper aliases
//! (`test_add`, `test_fib`, `test_mul`) that close over the standard
//! benchmark inputs so a timed call needs no per-call argument marshalling.
//! Each function is then looked up eagerly in the interpreter's global
//! table.  All mlua calls stand behind trusted wrappers; what a Lua
//! function returns is opaque to this crate, so the contracts promise only
//! how failures are classified.

use vstd::prelude::*;

use crate::backend::{BackendKind, CallableBackend, Payload};
use crate::errors::{CallError, SetupError};

verus! {

#[verifier::external_type_specification]
#[verifier::external_body]
pub struct ExLua(mlua::Lua);

#[verifier::external_type_specification]
#[verifier::external_body]
pub struct ExLuaTable(mlua::Table);

#[verifier::external_type_specification]
#[verifier::external_body]
pub struct ExLuaFunction(mlua::Function);

#[verifier::external_type_specification]
#[verifier::external_body]
pub struct ExLuaError(mlua::Error);

/// Relies on mlua::Lua::new: a fresh interpreter with an empty global
/// table.
#[verifier::external_body]
fn new_lua() -> mlua::Lua {
    mlua::Lua::new()
}

/// Relies on mlua::Lua::load and mlua::Chunk::exec: parses and executes the
/// source, failing if it does not parse or raises while running.
#[verifier::external_body]
fn exec_source(lua: &mlua::Lua, source: &str) -> Result<(), mlua::Error> {
    lua.load(source).exec()
}

/// Relies on mlua::Lua::globals: the interpreter's global table.
#[verifier::external_body]
fn lua_globals(lua: &mlua::Lua) -> mlua::Table {
    lua.globals()
}

/// Relies on mlua::Table::get: looks `name` up in the table and converts
/// the value to a function, failing if the entry is absent or not a
/// function.
#[verifier::external_body]
fn get_function(table: &mlua::Table, name: &str) -> Result<mlua::Function, mlua::Error> {
    table.get::<mlua::Function>(name)
}

/// Relies on mlua::Function::call: calls a two-argument Lua function and
/// marshals the result back to `i32`, failing if the call raises or the
/// result does not convert.
#[verifier::external_body]
fn call_function_binary(f: &mlua::Function, a: i32, b: i32) -> Result<i32, mlua::Error> {
    f.call::<i32>((a, b))
}

/// Relies on mlua::Function::call: calls a one-argument Lua function and
/// marshals the result back to `i32`, failing if the call raises or the
/// result does not convert.
#[verifier::external_body]
fn call_function_unary(f: &mlua::Function, x: i32) -> Result<i32, mlua::Error> {
    f.call::<i32>(x)
}

/// Relies on mlua::Function::call: calls a zero-argument Lua function and
/// marshals the result back to `i32`, failing if the call raises or the
/// result does not convert.
#[verifier::external_body]
fn call_function_nullary(f: &mlua::Function) -> Result<i32, mlua::Error> {
    f.call::<i32>(())
}

/// The adapter for the embedded interpreter: the runtime itself plus the
/// six eagerly resolved global functions.  The runtime lives as long as the
/// adapter, so the handles never outlive their backend.
pub struct InterpreterBackend {
    lua: mlua::Lua,
    add_f: mlua::Function,
    fib_f: mlua::Function,
    mul_f: mlua::Function,
    test_add_f: mlua::Function,
    test_fib_f: mlua::Function,
    test_mul_f: mlua::Function,
}

impl InterpreterBackend {
    /// The injected script: integer-only arithmetic matching the native
    /// definitions, plus the precompiled zero-argument benchmark aliases
    /// over the standard inputs.
    pub fn standard_source() -> &'static str {
        "function add(a, b)\n    return a + b\nend\n\nfunction fibonacci(n)\n    if n <= 1 then\n        return n\n    end\n    return fibonacci(n - 1) + fibonacci(n - 2)\nend\n\nfunction multiply_by_three(x)\n    return x * 3\nend\n\ntest_add = function() return add(5, 37) end\ntest_fib = function() return fibonacci(10) end\ntest_mul = function() return multiply_by_three(7) end\n"
    }

    /// Builds the interpreter backend from the standard script.
    pub fn setup() -> (r: Result<InterpreterBackend, SetupError>)
        ensures
            r matches Err(e) ==> (e is ScriptLoad || e is FunctionNotFound),
    {
        InterpreterBackend::setup_with_source(InterpreterBackend::standard_source())
    }

    /// Builds the interpreter backend from the given script.  A script that
    /// fails to parse or execute is a script-load failure; a script that
    /// runs but leaves one of the six expected globals undefined (or
    /// defined as something that is not a function) is a missing function.
    pub fn setup_with_source(source: &str) -> (r: Result<InterpreterBackend, SetupError>)
        ensures
            r matches Err(e) ==> (e is ScriptLoad || e is FunctionNotFound),
    {
        let lua = new_lua();
        match exec_source(&lua, source) {
            Ok(u) => u,
            Err(_) => {
                return Err(SetupError::ScriptLoad);
            },
        }
        let globals_table = lua_globals(&lua);
        let add_f = match get_function(&globals_table, "add") {
            Ok(f) => f,
            Err(_) => {
                return Err(SetupError::FunctionNotFound);
            },
        };
        let fib_f = match get_function(&globals_table, "fibonacci") {
            Ok(f) => f,
            Err(_) => {
                return Err(SetupError::FunctionNotFound);
            },
        };
        let mul_f = match get_function(&globals_table, "multiply_by_three") {
            Ok(f) => f,
            Err(_) => {
                return Err(SetupError::FunctionNotFound);
            },
        };
        let test_add_f = match get_function(&globals_table, "test_add") {
            Ok(f) => f,
            Err(_) => {
                return Err(SetupError::FunctionNotFound);
            },
        };
        let test_fib_f = match get_function(&globals_table, "test_fib") {
            Ok(f) => f,
            Err(_) => {
                return Err(SetupError::FunctionNotFound);
            },
        };
        let test_mul_f = match get_function(&globals_table, "test_mul") {
            Ok(f) => f,
            Err(_) => {
                return Err(SetupError::FunctionNotFound);
            },
        };
        Ok(
            InterpreterBackend {
                lua,
                add_f,
                fib_f,
                mul_f,
                test_add_f,
                test_fib_f,
                test_mul_f,
            },
        )
    }

    /// Invokes the interpreter's `add` with the given arguments.
    pub fn invoke_add(&self, a: i32, b: i32) -> (r: Result<i32, CallError>)
        ensures
            r matches Err(e) ==> e is InterpreterCall,
    {
        match call_function_binary(&self.add_f, a, b) {
            Ok(v) => Ok(v),
            Err(_) => Err(CallError::InterpreterCall),
        }
    }

    /// Invokes the interpreter's `fibonacci` with the given argument.
    pub fn invoke_fibonacci(&self, n: i32) -> (r: Result<i32, CallError>)
        ensures
            r matches Err(e) ==> e is InterpreterCall,
    {
        match call_function_unary(&self.fib_f, n) {
            Ok(v) => Ok(v),
            Err(_) => Err(CallError::InterpreterCall),
        }
    }

    /// Invokes the interpreter's `multiply_by_three` with the given
    /// argument.
    pub fn invoke_multiply_by_three(&self, x: i32) -> (r: Result<i32, CallError>)
        ensures
            r matches Err(e) ==> e is InterpreterCall,
    {
        match call_function_unary(&self.mul_f, x) {
            Ok(v) => Ok(v),
            Err(_) => Err(CallError::InterpreterCall),
        }
    }

    /// Invokes the precompiled `test_add` alias (adds 5 and 37).
    pub fn invoke_test_add(&self) -> (r: Result<i32, CallError>)
        ensures
            r matches Err(e) ==> e is InterpreterCall,
    {
        match call_function_nullary(&self.test_add_f) {
            Ok(v) => Ok(v),
            Err(_) => Err(CallError::InterpreterCall),
        }
    }

    /// Invokes the precompiled `test_fib` alias (Fibonacci of 10).
    pub fn invoke_test_fib(&self) -> (r: Result<i32, CallError>)
        ensures
            r matches Err(e) ==> e is InterpreterCall,
    {
        match call_function_nullary(&self.test_fib_f) {
            Ok(v) => Ok(v),
            Err(_) => Err(CallError::InterpreterCall),
        }
    }

    /// Invokes the precompiled `test_mul` alias (triples 7).
    pub fn invoke_test_mul(&self) -> (r: Result<i32, CallError>)
        ensures
            r matches Err(e) ==> e is InterpreterCall,
    {
        match call_function_nullary(&self.test_mul_f) {
            Ok(v) => Ok(v),
            Err(_) => Err(CallError::InterpreterCall),
        }
    }
}

impl InterpreterBackend {
    /// The backend kind tag, for report labels.
    pub fn kind(&self) -> (k: BackendKind)
        ensures
            k == BackendKind::Interpreter,
    {
        BackendKind::Interpreter
    }
}

impl CallableBackend for InterpreterBackend {
    fn invoke(&mut self, payload: Payload) -> (r: Result<i32, CallError>) {
        match payload {
            Payload::Add { a, b } => self.invoke_add(a, b),
            Payload::Fibonacci { n } => self.invoke_fibonacci(n),
            Payload::MultiplyByThree { x } => self.invoke_multiply_by_three(x),
        }
    }
}

} // verus!
