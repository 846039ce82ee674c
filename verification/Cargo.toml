[package]
name = "codex_adapter"
version = "0.1.0"
edition = "2021"
publish = false

[dependencies]
chrono = "0.4"
tokio = { version = "1", features = ["process", "io-util", "fs", "rt-multi-thread", "macros", "sync"] }
tempfile = "3"
