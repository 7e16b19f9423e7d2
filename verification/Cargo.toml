[package]
name = "task_service"
version = "0.1.0"
edition = "2021"
publish = false

[dependencies]
uuid = { version = "1", features = ["v4", "serde"] }
serde = { version = "1", features = ["derive"] }
serde_json = "1"
jsonwebtoken = "9"
chrono = "0.4"
argonautica = "*"
json-patch = "*"
actix-web = "4"
actix-web-httpauth = "*"
actix-cors = "*"
sqlx = { version = "*", default-features = false, features = ["runtime-tokio", "postgres", "uuid", "json", "migrate"] }
tokio = { version = "1", features = ["macros", "rt-multi-thread", "sync"] }
async-trait = "*"
anyhow = "1"
log = "0.4"
env_logger = { version = "*", default-features = false }
dotenv = "*"
dotenvy = "*"
lazy_static = "*"
derive_more = "0.99"
aws-config = { version = "1", default-features = false, features = ["rt-tokio", "behavior-version-latest"] }
aws-sdk-sqs = { version = "1", default-features = false, features = ["rt-tokio", "behavior-version-latest"] }
