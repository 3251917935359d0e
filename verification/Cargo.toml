[package]
name = "ralph"
version = "0.1.0"
edition = "2021"
publish = false

[dependencies]
adk-rust = { version = "=2.3.0", features = ["anthropic", "openai"] }
chrono = "=0.4.45"
colored = "=3.1.1"
futures = "=0.3.34"
serde = { version = "=1.0.229", features = ["derive"] }
serde_json = "=1.0.154"
tracing = "=0.1.44"
uuid = { version = "=1.29.0", features = ["v4"] }
