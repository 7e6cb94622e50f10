[package]
name = "tod_docs"
version = "0.1.0"
edition = "2021"
publish = false

[dependencies]
axum = "*"
serde = { version = "*", features = ["derive"] }
tokio = { version = "*", features = ["macros", "net", "rt-multi-thread"] }
tower-http = { version = "*", features = ["trace"] }
tracing = "*"
