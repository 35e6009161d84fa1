[package]
name = "tealr"
version = "0.1.0"
edition = "2021"
publish = false

[dependencies]
bstr = "0.2"
mlua = { version = "0.7", features = ["lua54", "vendored"] }
