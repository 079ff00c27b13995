[package]
name = "merino"
version = "0.1.0"
edition = "2021"
publish = false

[dependencies]
tokio = { version = "1", features = ["net", "io-util", "rt", "time", "macros", "rt-multi-thread"] }
hickory-resolver = "0.24"
