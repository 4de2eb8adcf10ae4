[package]
name = "wasm_remapper"
version = "0.1.0"
edition = "2021"
publish = false

[dependencies]
parity-wasm = "0.41"
thiserror = "1"
