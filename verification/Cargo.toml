[package]
name = "canido"
version = "0.1.0"
edition = "2021"
publish = false

[dependencies]
anyhow = "1"
aws-config = "=1.12.0"
aws-sdk-iam = "=1.128.0"
aws-sdk-sts = "=1.119.0"
aws-types = "~1.6.0"
clap = { version = "4", features = ["derive"] }
colored = "2"
serde_json = "=1.0.154"
tokio = { version = "1", features = ["macros", "rt-multi-thread"] }
urlencoding = "=2.1.3"
