[package]
name = "tlcs"
version = "0.1.0"
edition = "2021"
publish = false

[dependencies]
shakmaty = "0.27"
chrono = "0.4"
tokio = { version = "1", features = ["net", "io-util", "sync", "time", "rt", "rt-multi-thread", "macros"] }
serde = { version = "1", features = ["derive"] }
log = "0.4"
