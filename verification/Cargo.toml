[package]
name = "ss13_status"
version = "0.1.0"
edition = "2021"
publish = false

[dependencies]
humantime = "2"
serde = { version = "1", features = ["derive"] }
serde_json = "1"
serde_repr = "0.1"
toml = "0.5"
anyhow = "1"
