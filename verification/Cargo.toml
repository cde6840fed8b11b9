[package]
name = "sandbox_host"
version = "0.1.0"
edition = "2021"
publish = false

[dependencies]
log = "0.4"
parity-scale-codec = "3"
sc-allocator = "*"
sp-wasm-interface = "*"
wasmtime = { version = "8", default-features = false }
