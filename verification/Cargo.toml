[package]
name = "asset_sync"
version = "0.1.0"
edition = "2021"
publish = false

[dependencies]
anyhow = "1"
base64 = "0.13"
cargo_toml = "0.14"
dotenv = "0.15"
reqwest = { version = "0.11", features = ["blocking", "json"] }
serde = "1"
serde_derive = "1"
toml = "0.5"
url = "2"
walkdir = "2"
