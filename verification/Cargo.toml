[package]
name = "meta_athlete"
version = "0.1.0"
edition = "2021"
publish = false

[dependencies]
blake2-rfc = "=0.2.18"
parity-scale-codec = { version = "=3.7.5", features = ["derive"] }
scale-info = { version = "2", features = ["derive"] }
frame-support = "*"
frame-system = "*"
