[package]
name = "sandbox"
version = "0.1.0"
edition = "2021"
publish = false

[dependencies]
landlock = "0.4"
napi = "2"
napi-derive = "2"
