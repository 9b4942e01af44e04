[package]
name = "aria2_bridge"
version = "0.1.0"
edition = "2021"
publish = false

[dependencies]
aria2-ws = "*"
chrono = "0.4"
log = "0.4"
once_cell = "1"
serde_json = "1"
tokio = { version = "1", features = ["rt", "sync", "macros"] }
