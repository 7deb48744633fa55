[package]
name = "backend"
version = "0.1.0"
edition = "2021"
publish = false

[dependencies]
anyhow = "=1.0.104"
axum = "=0.7.9"
chrono = { version = "=0.4.45", default-features = false, features = ["serde"] }
reqwest = { version = "=0.12.28", default-features = false, features = ["json"] }
serde = { version = "=1.0.229", features = ["derive"] }
serde_json = "=1.0.154"
sqlx = { version = "=0.8.6", default-features = false, features = ["runtime-tokio", "postgres", "uuid", "chrono", "derive"] }
tokio = { version = "=1.54.1", features = ["rt", "time", "net", "sync"] }
tracing = "=0.1.44"
uuid = { version = "=1.29.0", features = ["serde"] }
