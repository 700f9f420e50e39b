[package]
name = "corosensei"
version = "0.3.0"
edition = "2021"
publish = false

[dependencies]
scopeguard = { version = "1.1", default-features = false }
