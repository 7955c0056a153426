[package]
name = "test_helpers"
version = "0.1.0"
edition = "2021"
publish = false

[dependencies]
rustc_apfloat = "*"
base-traits = "*"
