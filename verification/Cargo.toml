[package]
name = "log_relay"
version = "0.1.0"
edition = "2021"
publish = false

[dependencies]
aws-config = "*"
aws_lambda_events = "*"
aws-sdk-cloudwatchlogs = "*"
aws-sdk-s3 = "*"
chrono = "*"
flate2 = "*"
lambda_runtime = "*"
tokio = { version = "*", features = ["macros", "net", "rt", "time"] }
tracing = "*"
tracing-subscriber = "*"
