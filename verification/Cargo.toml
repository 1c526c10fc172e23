[package]
name = "ethproxy"
version = "0.1.0"
edition = "2021"
publish = false

[dependencies]
nix = "0.23"
serde = { version = "1", features = ["derive"] }
serde_json = "1"
