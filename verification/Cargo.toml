[package]
name = "users_api"
version = "0.1.0"
edition = "2021"
publish = false

[dependencies]
serde_json = "1"
aws-config = "1"
aws-sdk-dynamodb = "1"
aws_lambda_events = { version = "*", default-features = false, features = ["apigw"] }
lambda_runtime = "*"
tokio = { version = "1", features = ["macros", "rt-multi-thread"] }
tracing = "0.1"
tracing-subscriber = { version = "0.3", features = ["fmt", "json"] }
