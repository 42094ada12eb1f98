[package]
name = "wasi_shim"
version = "0.1.0"
edition = "2021"
publish = false

[dependencies]
cap-std = "*"
thiserror = "*"
wasmedge-types = "*"
