[package]
name = "publish"
version = "0.1.0"
edition = "2021"
publish = false

[dependencies]
cap-std = "*"
nix = { version = "*", features = ["user"] }
rustix = { version = "*", features = ["fs", "process"] }

[dev-dependencies]
tempfile = "*"
