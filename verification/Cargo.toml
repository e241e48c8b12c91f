[package]
name = "fw_ec"
version = "0.1.0"
edition = "2021"
publish = false

[dependencies]
xxhash-rust = { version = "0.8", features = ["xxh3", "const_xxh3"] }
nix = { version = "0.29", features = ["ioctl"] }
clap = { version = "4", features = ["derive"] }
serde = { version = "1", features = ["derive"] }
zbus = "5"
