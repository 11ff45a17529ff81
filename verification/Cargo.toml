[package]
name = "keyleash"
version = "0.1.0"
edition = "2021"
publish = false

[dependencies]
libc = "0.2"
rustix = { version = "1", features = ["net"] }
serde = { version = "1", features = ["derive"] }
serde_json = "1"
thiserror = "2"
