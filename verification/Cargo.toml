[package]
name = "default_hal"
version = "0.1.0"
edition = "2021"
publish = false

[dependencies]
async-trait = "=0.1.92"
log = "=0.4.34"
nix = { version = "=0.29.0", features = ["term"] }
tokio = { version = "=1.54.1", features = ["fs", "io-util", "rt", "sync"] }
