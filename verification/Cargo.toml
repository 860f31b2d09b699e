[package]
name = "fastly_log_abi"
version = "0.1.0"
edition = "2021"
publish = false

[dependencies]
byteorder = "=1.5.0"
fastly-shared = "=0.13.1"
log = "0.4"
wasmtime = { version = "=0.22.0", default-features = false }
