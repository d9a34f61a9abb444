[package]
name = "panoramas"
version = "0.1.0"
edition = "2021"
publish = false

[dependencies]
anyhow = "=1.0.104"
futures = "=0.3.34"
serde = { version = "=1.0.229", features = ["derive"] }
serde_derive = "=1.0.229"
serde_yaml = "=0.9.34"
tokio = { version = "=1.54.1", features = ["rt", "macros", "process", "sync", "time"] }
tokio-udev = "=0.9.1"
toml = "=0.8.23"
tracing = "=0.1.44"
tracing-subscriber = { version = "=0.3.23", features = ["env-filter"] }
ureq = "=2.12.1"
url = { version = "=2.5.8", features = ["serde"] }
