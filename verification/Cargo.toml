[package]
name = "record_store"
version = "0.1.0"
edition = "2021"
publish = false

[dependencies]
rusqlite = { version = "=0.40.2", features = ["bundled", "fallible_uint"] }
chrono = "=0.4.45"
md5 = "=0.8.1"
anyhow = "=1.0.104"
serde = { version = "=1.0.229", features = ["derive"] }
