[package]
name = "fsbridge"
version = "0.1.0"
edition = "2021"
publish = false

[dependencies]
fuser = "=0.18.0"
napi = { version = "=3.14.2", features = ["async"] }
napi-derive = "=3.6.12"
