[package]
name = "pixoo_bridge"
version = "0.1.0"
edition = "2021"
publish = false

[dependencies]
base64 = "*"
image = "*"
serde_json = "*"
url = "*"
uuid = { version = "*", features = ["v4"] }
axum = { version = "*", features = ["multipart"] }
reqwest = { version = "*", default-features = false }
serde = { version = "*", features = ["derive"] }
tokio = { version = "*", features = ["rt-multi-thread", "macros", "net", "time"] }
tracing = "*"
chrono = "*"
http = "*"
validator = { version = "*", features = ["derive"] }
thiserror = "*"
