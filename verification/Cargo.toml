[package]
name = "majsoul_max_rs"
version = "0.1.0"
edition = "2021"
publish = false

[dependencies]
prost = "*"
prost-types = "*"
rand = "0.9"
bytes = "1"
anyhow = "1"
serde = { version = "1", features = ["derive"] }
serde_json = "1"
tokio = { version = "1", features = ["rt-multi-thread", "sync", "time", "macros"] }
chrono = "0.4"
tracing = "0.1"
tracing-subscriber = { version = "0.3", features = ["env-filter"] }
tracing-appender = "0.2"
reqwest = { version = "0.12", default-features = false, features = ["json", "rustls-tls"] }
