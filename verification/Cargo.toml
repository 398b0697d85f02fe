[package]
name = "user_registration"
version = "0.1.0"
edition = "2021"
publish = false

[dependencies]
axum = "=0.8.9"
chrono = "=0.4.45"
env_logger = "=0.11.11"
firestore = "=0.57.3"
google-cloud-googleapis = "*"
google-cloud-pubsub = "=0.30.0"
http-body-util = "=0.1.5"
log = "=0.4.34"
serde = { version = "=1.0.229", features = ["derive"] }
serde_json = "=1.0.151"
tokio = { version = "=1.53.2", features = ["macros", "net", "rt-multi-thread"] }
