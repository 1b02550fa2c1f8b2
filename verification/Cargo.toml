[package]
name = "icon_pipeline"
version = "0.1.0"
edition = "2021"
publish = false

[dependencies]
heck = "*"
anyhow = "*"
clap = { version = "*", features = ["derive"] }
time = "*"
tokio = { version = "*", features = ["rt-multi-thread", "macros", "fs", "io-util", "sync"] }
tracing = "*"
tracing-subscriber = "*"
