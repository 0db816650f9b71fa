[package]
name = "dirty"
version = "0.1.0"
edition = "2021"
publish = false

[dependencies]
httparse = "1"
serde = { version = "1", features = ["derive"] }
serde_json = "1"
bincode = "1"
dirs-next = "2"
rodio = "0.11"
glow = "0.4"
