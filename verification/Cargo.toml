[package]
name = "cship"
version = "0.1.0"
edition = "2021"
publish = false

[dependencies]
serde = { version = "1", features = ["derive"] }
tracing = "0.1"

[dev-dependencies]
tempfile = "3"
