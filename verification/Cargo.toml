[package]
name = "os_rebuild"
version = "0.1.0"
edition = "2021"
publish = false

[dependencies]
nix = { version = "=0.31.3", default-features = false, features = ["hostname", "user"] }
tempfile = "=3.27.0"
dialoguer = { version = "=0.12.0", default-features = false }
color-eyre = "=0.6.5"
tracing = "=0.1.44"
