[package]
name = "security"
version = "0.1.0"
edition = "2021"
publish = false

[dependencies]
apple-cf = "*"
base64 = "*"
bitflags = "*"
doom-fish-utils = "*"
libc = "*"
serde = { version = "*", features = ["derive"] }
serde_json = "*"
zeroize = "*"
