[package]
name = "botcore"
version = "0.1.0"
edition = "2021"
publish = false

[dependencies]
anyhow = "*"
atomic = "0.5"
futures = "*"
serde = { version = "*", features = ["derive"] }
sqlx = { version = "*", default-features = false, features = ["sqlite", "runtime-tokio"] }
thiserror = "*"
tokio = { version = "*", features = ["rt-multi-thread", "macros", "signal", "sync", "time"] }
tokio-util = "*"
toml = "*"
tracing = "*"
tracing-subscriber = { version = "*", features = ["env-filter", "fmt"] }
twilight-gateway = "0.15"
twilight-http = "0.15"
twilight-model = "0.15"
