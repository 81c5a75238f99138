[package]
name = "key-mutex"
version = "0.1.0"
edition = "2021"
publish = false

[dependencies]
dashmap = "5"
guardian = "1"
tokio = { version = "1", default-features = false, features = ["sync"] }
