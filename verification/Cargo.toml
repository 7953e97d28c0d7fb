[package]
name = "newsboy"
version = "0.1.0"
edition = "2021"
publish = false

[dependencies]
dashmap = "*"
ahash = "*"
time = "*"
tracing = "*"
tracing-subscriber = { version = "*", features = ["env-filter"] }
color-eyre = "*"
eyre = "*"
thiserror = "*"
