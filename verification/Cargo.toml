[package]
name = "r2d2_adbc"
version = "0.1.0"
edition = "2021"
publish = false

[dependencies]
adbc_core = { version = "=0.24.0", default-features = false }
r2d2 = "=0.8.10"

[dev-dependencies]
arrow-array = { version = "=59.3.1", default-features = false }
arrow-schema = { version = "=59.3.1", default-features = false }
