[package]
name = "flotswarm"
version = "0.1.0"
edition = "2021"
publish = false

[dependencies]
anyhow = "1"
aws-config = { version = "1", default-features = false, features = ["behavior-version-latest", "rt-tokio"] }
aws-sdk-sns = { version = "1", default-features = false, features = ["rt-tokio"] }
aws-sdk-sqs = { version = "1", default-features = false, features = ["rt-tokio"] }
aws-sdk-ssm = { version = "1", default-features = false, features = ["rt-tokio"] }
aws-smithy-http-client = { version = "1", features = ["rustls-aws-lc"] }
hex = "0.4"
hmac = "0.12"
lambda_http = "0"
regex = "1"
serde = { version = "1", features = ["derive"] }
serde_json = "1"
sha2 = "0.10"
time = { version = "0.3", features = ["formatting"] }
tokio = { version = "1", features = ["macros", "process", "rt-multi-thread", "time"] }
toml = "0.8"
uuid = { version = "1", features = ["v4"] }
