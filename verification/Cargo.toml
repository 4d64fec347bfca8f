[package]
name = "rinha-backend-2023-q3"
version = "0.1.0"
edition = "2021"
publish = false

[dependencies]
axum = "0.6"
chrono = { version = "0.4", default-features = false, features = ["serde", "std"] }
config = { version = "0.13", default-features = false, features = ["yaml"] }
futures = "0.3"
hyper = { version = "0.14", features = ["server", "tcp", "http1"] }
mongodb = "2"
serde = { version = "1", features = ["derive"] }
serde_json = "1"
tokio = { version = "1", features = ["macros", "rt-multi-thread"] }
tower = "0.4"
tower-http = { version = "0.4", features = ["request-id", "sensitive-headers", "trace", "util"] }
tracing = "0.1"
tracing-subscriber = { version = "0.3", features = ["env-filter"] }
uuid = { version = "1", features = ["v4"] }
