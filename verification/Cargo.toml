[package]
name = "s3_resume"
version = "0.1.0"
edition = "2021"
publish = false

[dependencies]
aws-sdk-s3 = { version = "=1.157.0", default-features = false, features = ["rt-tokio"] }
aws-smithy-runtime-api = { version = "=1.19.2", features = ["client", "http-1x"] }
tokio = { version = "=1.54.1", default-features = false, features = ["io-util", "rt", "time"] }
tracing = "=0.1.44"
