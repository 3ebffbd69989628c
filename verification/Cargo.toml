[package]
name = "async_pty"
version = "0.1.0"
edition = "2021"
publish = false

[dependencies]
futures = "*"
nix = { version = "=0.27.1", features = ["fs", "ioctl", "term"] }
tokio = { version = "*", features = ["net"] }
