[package]
name = "rust_at_one"
version = "0.1.0"
edition = "2021"
publish = false

[dependencies]
mongodb = "1"
bson = "1"
dotenv = "0.15"
serde = { version = "1", features = ["derive"] }
serde_json = "1"
thiserror = "1"
async-trait = "0.1"
futures-util = "0.3"
actix-web = { version = "3", features = ["openssl"] }
actix-rt = "1"
env_logger = "0.8"
openssl = "0.10"
