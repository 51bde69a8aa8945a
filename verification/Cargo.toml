[package]
name = "priotx"
version = "0.1.0"
edition = "2021"
publish = false

[dependencies]
anyhow = "*"
mio = { version = "*", features = ["os-poll", "os-ext"] }
nix = "*"
