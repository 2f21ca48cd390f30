[package]
name = "vblock"
version = "0.1.0"
edition = "2021"
publish = false

[dependencies]
clap = "*"
io-uring = "*"
libublk = "*"
nix = { version = "*", features = ["ioctl", "fs"] }
serde_json = "*"
