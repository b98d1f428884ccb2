[package]
name = "damascus"
version = "0.1.0"
edition = "2021"
publish = false

[dependencies]
nix = { version = "0.30", default-features = false, features = ["fs", "mount", "process", "user"] }
tracing = "0.1"
