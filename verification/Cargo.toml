[package]
name = "taskwarden"
version = "0.1.0"
edition = "2021"
publish = false

[dependencies]
chrono = "*"
serde_json = "*"
tokio = { version = "*", features = ["rt-multi-thread", "macros", "process", "sync", "time"] }
