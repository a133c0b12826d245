[package]
name = "orcs"
version = "0.1.0"
edition = "2021"
publish = false

[dependencies]
serde = { version = "=1.0.229", features = ["derive"] }
serde_json = "=1.0.154"
uuid = { version = "=1.29.0", features = ["v4", "v5"] }
semver = "=1.0.28"
dirs = "=7.0.0"
version-migrate = "=0.21.0"
llm-toolkit = { version = "=0.63.1", default-features = false, features = ["agent"] }
async-trait = "=0.1.92"
tokio = { version = "=1.54.1", features = ["fs", "rt", "macros", "sync", "time"] }
toml = "=1.1.8"
minijinja = { version = "=2.12.0", default-features = false }
anyhow = "=1.0.104"
tracing = "=0.1.44"
tracing-subscriber = "=0.3.23"
tokio-util = "=0.7.20"
chrono = "0.4"
