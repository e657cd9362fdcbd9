[package]
name = "ccc_mcp"
version = "0.1.0"
edition = "2021"
publish = false

[dependencies]
chrono = "0.4"
serde_json = "1"
sha2 = "0.10"
toml = "0.8"
