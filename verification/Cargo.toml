[package]
name = "gateway_core"
version = "0.1.0"
edition = "2021"
publish = false

[dependencies]
aws_lambda_events = "*"
lambda_runtime = "*"
serde = { version = "*", features = ["derive"] }
serde_json = "*"
serde_json_path_to_error = "*"
tokio = { version = "*", features = ["macros", "rt-multi-thread"] }
tracing = "*"
tracing-subscriber = "*"
