[package]
name = "node_config"
version = "0.1.0"
edition = "2021"
publish = false

[dependencies]
rand = "=0.10.3"
toml = "=1.1.7"
serde = { version = "=1.0.229", features = ["derive"] }
