[package]
name = "rc_codegen"
version = "0.1.0"
edition = "2021"
publish = false

[dependencies]
bumpalo = { version = "3", features = ["collections"] }
parity-wasm = "0.45"
tower-lsp = "0.20"
