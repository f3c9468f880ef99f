[package]
name = "rust_flutter_application"
version = "0.1.0"
edition = "2021"
publish = false

[dependencies]
jsonwebtoken = "=9.3.1"
uuid = { version = "=1.29.0", features = ["v4"] }
argon2 = { version = "=0.5.3", features = ["std"] }
actix-web = "=4.18.1"
actix-cors = "=0.6.5"
actix-files = "0.6"
actix-multipart = "0.6"
redis = { version = "=0.24.1", features = ["tokio-comp"] }
sqlx = { version = "=0.7.4", default-features = false, features = ["runtime-tokio", "mysql", "chrono"] }
chrono = "=0.4.45"
serde = { version = "=1.0.229", features = ["derive"] }
serde_json = "=1.0.154"
validator = { version = "=0.16.1", features = ["derive"] }
dotenv = "=0.15.0"
env_logger = "=0.10.2"
futures-util = "=0.3.34"
