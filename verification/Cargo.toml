[package]
name = "tool_registry"
version = "0.1.0"
edition = "2021"
publish = false

[dependencies]
uuid = { version = "=1.29.0", features = ["v4", "serde"] }
sha2 = "=0.10.9"
chrono = { version = "=0.4.45", features = ["serde"] }
serde = { version = "=1.0.229", features = ["derive"] }
serde_json = "=1.0.154"
thiserror = "=2.0.21"
bytes = "=1.12.1"
mockable = { version = "=3.0.0", features = ["clock"] }
tokio = { version = "=1.54.1", features = ["sync", "rt", "macros"] }
async-trait = "=0.1.92"
object_store = "=0.14.2"
futures = "=0.3.34"
tracing = "=0.1.44"
