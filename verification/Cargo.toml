[package]
name = "surreal_chat"
version = "0.1.0"
edition = "2021"
publish = false

[dependencies]
anyhow = "1"
clap = { version = "4", default-features = false, features = ["std", "env", "help", "usage", "error-context"] }
futures-util = "0.3"
serde = { version = "1", features = ["derive"] }
serde_json = "1"
surrealdb = { version = "1.5", default-features = false, features = ["protocol-ws"] }
tokio = { version = "1", features = ["macros", "rt-multi-thread", "sync"] }
tokio-stream = "0.1"
tracing = "0.1"
tracing-subscriber = { version = "0.3", default-features = false, features = ["env-filter", "fmt", "registry", "std"] }
