[package]
name = "task_tracker"
version = "0.1.0"
edition = "2021"
publish = false

[dependencies]
chrono = { version = "=0.4.45", features = ["serde"] }
deadpool-postgres = "=0.14.2"
hyper = { version = "=0.14.32", features = ["full"] }
minijinja = "=2.24.0"
regex = "=1.13.1"
serde = { version = "=1.0.229", features = ["derive"] }
serde_json = "=1.0.154"
tokio = { version = "=1.54.1", features = ["macros", "rt-multi-thread"] }
tokio-postgres = { version = "=0.7.18", features = ["with-chrono-0_4"] }
validator = "=0.21.0"
