[package]
name = "wasm_runner"
version = "0.1.0"
edition = "2021"
publish = false

[dependencies]
anyhow = "=1.0.104"
libloading = "=0.8.9"
mlua = { version = "=0.12.2", features = ["lua54", "vendored"] }
wasmtime = { version = "=44.0.3", default-features = false, features = ["cranelift", "runtime", "wat"] }
