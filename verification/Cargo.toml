[package]
name = "kady"
version = "0.1.0"
edition = "2021"
publish = false

[dependencies]
toml = "0.8"
twilight-cache-inmemory = "0.15"
twilight-gateway = "0.15"
twilight-http = "0.15"
twilight-model = "0.15"
clap = { version = "4", features = ["derive"] }
tokio = { version = "1", features = ["rt-multi-thread", "macros", "time", "sync"] }
tracing = "0.1"
tracing-subscriber = "0.3"
color-eyre = "0.6"
