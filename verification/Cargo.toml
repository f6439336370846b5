[package]
name = "amos_companion"
version = "0.1.0"
edition = "2021"
publish = false

[dependencies]
serde = { version = "1", features = ["derive"] }
serde_json = "1"
dirs = "5"
uuid = { version = "1", features = ["v4"] }
base64 = "0.22"
percent-encoding = "2"
hostname = "0.4"
toml = "0.8"
thiserror = "1"
tokio = { version = "1", features = ["rt", "rt-multi-thread", "time", "process", "sync", "macros"] }
tracing = "0.1"
tracing-subscriber = { version = "0.3", features = ["env-filter"] }
tracing-appender = "0.2"
reqwest = { version = "0.12", default-features = false, features = ["json"] }
open = "5"
