[package]
name = "agent"
version = "0.1.0"
edition = "2021"
publish = false

[dependencies]
axum = "=0.8.9"
genai = "=0.6.5"
serde = { version = "=1.0.229", features = ["derive"] }
tempfile = "=3.27.0"
tokio = { version = "=1.53.2", features = ["macros", "net", "rt-multi-thread"] }
