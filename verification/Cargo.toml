[package]
name = "peerstate"
version = "0.1.0"
edition = "2021"
publish = false

[dependencies]
base64 = "0.12"
sqlx = { version = "0.7", default-features = false, features = ["sqlite", "runtime-async-std"] }
rusqlite = "0.29"
