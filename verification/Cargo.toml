[package]
name = "agenticos"
version = "0.1.0"
edition = "2021"
publish = false

[dependencies]
serde = { version = "=1.0.229", features = ["derive"] }
serde_json = "=1.0.154"
toml = "=0.8.23"
rand = { version = "=0.8.8", features = ["small_rng"] }
rusqlite = { version = "*", features = ["bundled"] }
clap = { version = "4", features = ["derive"] }
csv = "1"
