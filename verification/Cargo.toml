[package]
name = "copper"
version = "0.1.0"
edition = "2021"
publish = false

[dependencies]
lazy_static = { version = "=1.5.1", features = ["spin_no_std"] }
spin = "=0.9.9"
x86_64 = { version = "=0.15.5", default-features = false, features = ["instructions"] }
