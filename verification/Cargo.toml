[package]
name = "rinha"
version = "0.1.0"
edition = "2021"
publish = false

[dependencies]
axum = "=0.8.9"
chrono = { version = "=0.4.45", features = ["serde"] }
deadpool-postgres = "=0.14.2"
dotenv = "=0.15.0"
redis = { version = "=1.8.1", features = ["tokio-comp", "connection-manager"] }
reqwest = { version = "=0.12.28", default-features = false, features = ["json"] }
rust_decimal = { version = "=1.43.0", features = ["db-tokio-postgres"] }
serde = { version = "=1.0.229", features = ["derive"] }
serde_json = "=1.0.154"
tokio = { version = "=1.54.1", features = ["full"] }
tokio-postgres = { version = "=0.7.18", features = ["with-chrono-0_4", "with-uuid-1"] }
tracing = "=0.1.44"
tracing-subscriber = "=0.3.23"
uuid = "=1.29.0"
