[package]
name = "sick_api"
version = "0.1.0"
edition = "2021"
publish = false

[dependencies]
actix-web = { version = "=4.18.1", default-features = false, features = ["macros"] }
actix-cors = "=0.7.2"
env_logger = "=0.11.11"
mysql = "=28.0.4"
redis = { version = "=0.25.5", features = ["tokio-comp", "connection-manager"] }
redis_ts = { version = "=0.5.4", features = ["tokio-comp"] }
serde = { version = "=1.0.229", features = ["derive"] }
serde_json = "=1.0.154"
ts-rs = "=12.0.1"
