[package]
name = "codex_advisor"
version = "0.1.0"
edition = "2021"
publish = false

[dependencies]
serde = { version = "1", features = ["derive"] }
serde_json = "1"
tokio = { version = "1", features = ["macros", "process", "rt", "time"] }
futures = "0.3"
schemars = "0.8"
