[package]
name = "castify"
version = "0.1.0"
edition = "2021"
publish = false

[dependencies]
bytes = "1"
tokio = { version = "1", features = ["sync", "time", "rt", "macros"] }
log = "0.4"
anyhow = "1"
async-trait = "0.1"
