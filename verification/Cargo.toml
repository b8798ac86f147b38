[package]
name = "rtmp_encoder"
version = "0.1.0"
edition = "2021"
publish = false

[dependencies]
envy = "=0.4.2"
serde = { version = "=1.0.229", features = ["derive"] }
