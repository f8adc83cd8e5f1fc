[package]
name = "memenow_storage_service"
version = "0.1.0"
edition = "2021"
publish = false

[dependencies]
anyhow = "*"
aws-config = "*"
aws-sdk-s3 = "*"
bytes = "*"
dotenv = "*"
env_logger = "*"
futures = "*"
futures-util = "*"
ipfs-api = "=0.16.0"
log = "*"
serde = { version = "*", features = ["derive"] }
serde_json = "*"
thiserror = "*"
tokio = { version = "*", features = ["full"] }
uuid = { version = "=1.27.0", features = ["v4"] }
warp = { version = "=0.4.3", features = ["multipart", "server"] }
