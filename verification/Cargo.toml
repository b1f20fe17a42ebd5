[package]
name = "kaphd"
version = "0.1.0"
edition = "2021"
publish = false

[dependencies]
tokio = { version = "*", features = ["rt-multi-thread", "net", "io-util", "sync", "time", "signal", "macros", "fs"] }
clap = { version = "*", features = ["derive", "env"] }
serde = { version = "*", features = ["derive"] }
toml = "*"
tracing = "*"
tracing-subscriber = { version = "*", features = ["env-filter", "json"] }
tracing-error = "*"
color-eyre = "*"
eyre = "*"
thiserror = "*"
async-trait = "*"
bytes = "*"
