[package]
name = "cloudflareddns"
version = "0.1.0"
edition = "2021"
publish = false

[dependencies]
public-ip = "0.2"
reqwest = { version = "0.11", default-features = false, features = ["json", "rustls-tls"] }
serde = { version = "1", features = ["derive"] }
thiserror = "1"
tokio = { version = "1", features = ["rt-multi-thread", "macros", "fs", "io-util", "time", "sync"] }
toml = "0.8"
tracing = "0.1"
tracing-subscriber = "0.3"
