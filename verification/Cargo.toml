[package]
name = "nebula_tower"
version = "0.1.0"
edition = "2021"
publish = false

[dependencies]
anyhow = "1"
dirs = "5"
once_cell = "1"
parking_lot = "0.12"
reqwest = { version = "0.11", default-features = false }
serde = { version = "1", features = ["derive"] }
serde_json = "1"
tempfile = "3"
tokio = { version = "1", features = ["io-util", "macros", "process", "rt", "time"] }
which = "4"
zip = { version = "0.6", default-features = false, features = ["deflate"] }
