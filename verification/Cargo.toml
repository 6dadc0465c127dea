[package]
name = "beepsong"
version = "0.1.0"
edition = "2021"
publish = false

[dependencies]
ctrlc = "*"
libc = "*"
nix = { version = "*", features = ["user"] }
