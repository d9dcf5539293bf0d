[package]
name = "decune"
version = "0.1.0"
edition = "2021"
publish = false

[dependencies]
anyhow = "1"
futures-util = "0.3"
libc = "0.2"
serde_json = "1"
tokio = { version = "1", features = ["rt", "time"] }
