[package]
name = "ollama_turbo"
version = "0.1.0"
edition = "2021"
publish = false

[dependencies]
serde_json = "1"
turbo-quant = "*"
serde = { version = "1", features = ["derive"] }
anyhow = "1"
axum = { version = "0.7", features = ["ws"] }
tokio = { version = "1", features = ["macros", "rt-multi-thread", "net", "sync"] }
tokio-stream = "0.1"
futures = "0.3"
reqwest = { version = "0.11", default-features = false, features = ["json"] }
tower-http = { version = "0.5", features = ["cors"] }
tracing = "0.1"
tracing-subscriber = { version = "0.3", features = ["env-filter"] }
