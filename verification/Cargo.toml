[package]
name = "items_api"
version = "0.1.0"
edition = "2021"
publish = false

[dependencies]
aws-config = "*"
aws-sdk-s3 = "*"
lambda_http = "*"
tokio = { version = "*", features = ["macros", "rt"] }
