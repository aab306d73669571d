[package]
name = "bulk_loader"
version = "0.1.0"
edition = "2021"
publish = false

[dependencies]
anyhow = "1"
async-trait = "*"
atomic-counter = "*"
aws-credential-types = "*"
aws-sdk-s3 = "*"
bytes = "1"
clap = { version = "4", features = ["derive", "env"] }
csv = "1"
env_logger = "*"
futures = "0.3"
log = "0.4"
scylla = "*"
serde_json = "1"
tokio = { version = "1", features = ["rt", "macros", "fs", "io-util", "sync", "time"] }
tokio-util = { version = "0.7", features = ["io"] }
url = "2"
urldecode = "*"
wg = "*"
