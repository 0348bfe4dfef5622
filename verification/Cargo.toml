[package]
name = "rewave"
version = "0.1.0"
edition = "2021"
publish = false

[dependencies]
serde = { version = "1", features = ["derive"] }
serde_json = "1"
tokio = { version = "1", features = ["net", "io-util", "rt", "rt-multi-thread", "macros"] }
async-trait = "0.1"
