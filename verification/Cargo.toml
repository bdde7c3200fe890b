[package]
name = "qurio_core"
version = "0.1.0"
edition = "2021"
publish = false

[dependencies]
serde = { version = "*", features = ["derive"] }
serde_json = "*"
tokio = { version = "*", features = ["macros", "rt-multi-thread", "net"] }
axum = "*"
futures = "*"
async-stream = "*"
reqwest = { version = "*", features = ["json", "stream"] }
tower-http = { version = "*", features = ["cors"] }
chrono = "*"
chrono-tz = "*"
meval = "*"
