[package]
name = "otlp_forwarder"
version = "0.1.0"
edition = "2021"
publish = false

[dependencies]
serde_json = "=1.0.151"
otlp-stdout-span-exporter = "=0.17.1"
serverless-otlp-forwarder-core = { version = "=0.2.1", features = ["instrumented-client"] }
aws_lambda_events = "=1.2.0"
lambda_runtime = "*"
lambda-otel-lite = "*"
tokio = { version = "*", features = ["macros", "rt"] }
anyhow = "*"
serde = { version = "*", features = ["derive"] }
tracing = "*"
opentelemetry = "=0.31.0"
opentelemetry-otlp = { version = "=0.31.1", features = ["http-proto"] }
reqwest = { version = "*", default-features = false }
reqwest-middleware = "*"
reqwest-tracing = "*"
