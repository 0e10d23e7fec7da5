[package]
name = "kvstore"
version = "0.1.0"
edition = "2021"
publish = false

[dependencies]
heed = "0.11"
axum = "*"
tokio = { version = "*", features = ["rt-multi-thread", "macros", "net"] }
serde = { version = "*", features = ["derive"] }
serde_json = "*"
tower-http = { version = "*", features = ["trace", "catch-panic"] }
tracing = "*"
tracing-subscriber = "*"
hyper = "*"

[dev-dependencies]
tempfile = "*"
