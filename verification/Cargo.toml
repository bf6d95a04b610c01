[package]
name = "binconf"
version = "0.1.0"
edition = "2021"
publish = false

[dependencies]
bincode = "=1.3.3"
dirs = "=5.0.1"
ron = "=0.8.1"
serde = "=1.0.229"
serde_json = "=1.0.154"
serde_yaml = "=0.9.34"
toml = "=0.8.23"
xxhash-rust = { version = "=0.8.19", features = ["xxh3"] }
