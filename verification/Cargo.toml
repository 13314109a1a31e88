[package]
name = "wasm_sandbox"
version = "0.1.0"
edition = "2021"
publish = false

[dependencies]
anyhow = "1"
clap = { version = "4", features = ["derive"] }
wasmtime = { version = "36", default-features = false, features = ["cranelift", "runtime", "std", "wat"] }
