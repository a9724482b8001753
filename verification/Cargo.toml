[package]
name = "locat"
version = "0.1.0"
edition = "2021"
publish = false

[dependencies]
maxminddb = "*"
rusqlite = { version = "*", features = ["bundled"] }
anyhow = "*"
axum = "*"
tokio = { version = "*", features = ["rt-multi-thread", "macros", "signal", "net"] }
reqwest = { version = "*", default-features = false }
tower-http = { version = "*", features = ["cors", "trace"] }
tracing = "*"
tracing-subscriber = { version = "*", features = ["json"] }
uuid = { version = "*", features = ["v4"] }
dotenv = "*"
image = "*"
artem = "*"
