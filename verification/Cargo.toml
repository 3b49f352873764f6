[package]
name = "gula_db_core"
version = "0.1.0"
edition = "2021"
publish = false

[dependencies]
base64 = "0.22"
imagesize = "0.13"
serde = { version = "1", features = ["derive"] }
serde_json = "1"
rusqlite = { version = "0.32", features = ["bundled"] }
napi = { version = "2", default-features = false, features = ["napi4"] }
napi-derive = "2"
