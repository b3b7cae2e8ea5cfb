[package]
name = "binder"
version = "0.1.0"
edition = "2021"
publish = false

[dependencies]
libloading = "=0.9.0"
rustix = { version = "=1.1.5", features = ["pipe"] }
