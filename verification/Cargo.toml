[package]
name = "warf"
version = "0.1.0"
edition = "2021"
publish = false

[dependencies]
wasmi = { version = "=2.0.0", default-features = false, features = ["stable", "std", "validate", "memory64", "auto-dispatch"] }
parity-wasm = "=0.45.0"
wasmi-validation = "=0.5.0"
strsim = "=0.11.1"
fs_extra = "=1.3.0"
