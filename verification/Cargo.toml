[package]
name = "task_api"
version = "0.1.0"
edition = "2021"
publish = false

[dependencies]
actix = "=0.13.5"
actix-web = "=4.15.0"
chrono = { version = "=0.4.45", features = ["serde"] }
dotenv = "=0.15.0"
env_logger = "=0.11.11"
serde = { version = "=1.0.229", features = ["derive"] }
serde_json = "=1.0.151"
sqlx = { version = "=0.8.6", default-features = false, features = ["postgres", "runtime-tokio", "uuid", "chrono"] }
uuid = { version = "=1.27.0", features = ["serde", "v4"] }
