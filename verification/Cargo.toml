[package]
name = "shoes"
version = "0.1.0"
edition = "2021"
publish = false

[dependencies]
log = "*"
tokio = { version = "*", features = ["net", "io-util", "rt", "rt-multi-thread", "sync", "time", "macros"] }
