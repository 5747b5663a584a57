[package]
name = "static_site_deploy"
version = "0.1.0"
edition = "2021"
publish = false

[dependencies]
aws-config = "0.55"
aws-sdk-cloudformation = "0.28"
aws-sdk-cloudfront = "0.28"
aws-sdk-route53 = "0.28"
aws-sdk-s3 = "0.28"
aws-sdk-sts = "0.28"
aws-smithy-http = "0.55"
clap = { version = "4", features = ["derive"] }
mime_guess = "2"
thiserror = "1"
tokio = { version = "1", features = ["macros", "rt-multi-thread", "time"] }
tracing = "0.1"
tracing-subscriber = "0.3"
