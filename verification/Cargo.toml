[package]
name = "evdev_rs"
version = "0.1.0"
edition = "2021"
publish = false

[dependencies]
bitflags = "*"
libc = "0.2"
nix = { version = "*", default-features = false }
serde = { version = "1", features = ["derive"] }
