[package]
name = "otlp_metrics"
version = "0.1.0"
edition = "2021"
publish = false

[dependencies]
opentelemetry = { version = "=0.20.0", features = ["metrics", "rt-tokio"] }
opentelemetry-otlp = { version = "=0.13.0", features = ["metrics"] }
tower = "=0.4.13"

[dev-dependencies]
tokio = { version = "1", features = ["rt", "time"] }
