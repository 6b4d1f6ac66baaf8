[package]
name = "alpm_utils"
version = "0.1.0"
edition = "2021"
publish = false

[dependencies]
alpm-sys = { version = "=5.0.1", default-features = false }
