[package]
name = "opendp_ffi"
version = "0.1.0"
edition = "2021"
publish = false

[dependencies]
num = "0.3"
opendp = { version = "0.5", default-features = false, features = ["untrusted"] }
