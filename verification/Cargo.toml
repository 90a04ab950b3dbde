[package]
name = "sierra_native"
version = "0.1.0"
edition = "2021"
publish = false

[dependencies]
starknet-types-core = "*"
libloading = "*"
tempfile = "*"
