[package]
name = "fcgiq"
version = "0.1.0"
edition = "2021"
publish = false

[dependencies]
anyhow = "1"
aws-config = "=1.13.0"
aws-sdk-sqs = "=1.117.0"
clap = { version = "=4.6.7", features = ["derive"] }
fastcgi-client = "=0.9.0"
http = "=1.5.0"
httparse = "=1.10.1"
log = "0.4"
serde = { version = "1", features = ["derive"] }
serde_json = "=1.0.154"
serde_yml = "=0.0.13"
simple_logger = "=5.2.0"
thiserror = "=2.0.21"
tokio = { version = "=1.54.1", features = ["full"] }
tokio-util = "=0.7.20"
