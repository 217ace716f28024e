[package]
name = "grok_build"
version = "0.1.0"
edition = "2021"
publish = false

[dependencies]
anyhow = "=1.0.104"
base64 = "=0.22.1"
chrono = { version = "=0.4.45", default-features = false, features = ["clock", "std"] }
dirs = "=6.0.0"
fastrace = "0.7"
reqwest = { version = "=0.12.28", default-features = false }
serde = { version = "=1.0.229", features = ["derive"] }
serde_json = "=1.0.154"
toml = "=0.8.23"
toml_edit = "=0.22.27"
urlencoding = "=2.1.3"
uuid = { version = "=1.29.0", features = ["v4", "v7"] }
