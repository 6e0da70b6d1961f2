[package]
name = "stack_deploy"
version = "0.1.0"
edition = "2021"
publish = false

[dependencies]
serde_json = "=1.0.154"
zip = { version = "=0.6.6", default-features = false, features = ["deflate"] }
tokio = { version = "=1.54.1", features = ["macros", "rt-multi-thread"] }
aws-config = { version = "=1.12.0", features = ["behavior-version-latest"] }
aws-sdk-s3 = "=1.152.0"
aws-sdk-cloudformation = "=1.131.0"
aws-types = "=1.6.0"
