[package]
name = "nh"
version = "0.1.0"
edition = "2021"
publish = false

[dependencies]
hostname = "*"
nix = { version = "*", features = ["user"] }
semver = "*"
which = "*"
tempfile = "*"
subprocess = "*"
dialoguer = "*"
