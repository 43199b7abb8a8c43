[package]
name = "lu_handshake"
version = "0.1.0"
edition = "2021"
publish = false

[dependencies]
rustls = "=0.19.1"
serde = { version = "1", features = ["derive"] }
toml = "*"
