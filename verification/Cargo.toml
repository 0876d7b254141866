[package]
name = "plex_webhook"
version = "0.1.0"
edition = "2021"
publish = false

[dependencies]
serde_json = { version = "1", features = ["preserve_order"] }
bytes = "1"
futures = "0.3"
structopt = "0.3"
tokio = { version = "1", features = ["full"] }
tracing = "0.1"
tracing-subscriber = { version = "0.3", features = ["env-filter"] }
warp = "0.3"
