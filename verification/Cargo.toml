[package]
name = "tcp_multiplexer"
version = "0.1.0"
edition = "2021"
publish = false

[dependencies]
anyhow = "*"
clap = { version = "*", features = ["derive", "env"] }
miette = "*"
pin-project-lite = "*"
serde = "*"
serde_derive = "*"
tokio = { version = "*", features = ["rt", "net", "io-util", "sync", "macros"] }
tracing = "*"
tracing-subscriber = "*"
