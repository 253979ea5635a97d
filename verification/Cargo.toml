[package]
name = "pool_registry"
version = "0.1.0"
edition = "2021"
publish = false

[dependencies]
ffi-support = "0.4"
