[package]
name = "todone"
version = "0.1.0"
edition = "2021"
publish = false

[dependencies]
argon2 = { version = "0.5", features = ["std"] }
rand = "0.8"
jsonwebtoken = "8"
serde_json = { version = "1", features = ["raw_value"] }
uuid = { version = "1", features = ["serde", "v4"] }
regex = "1"
validator = { version = "0.16", features = ["derive"] }
chrono = "0.4"
axum = { version = "0.6", features = ["headers"] }
tokio = { version = "1", features = ["full"] }
sqlx = { version = "0.7", features = ["runtime-tokio", "postgres", "uuid", "macros"] }
serde = { version = "1", features = ["derive"] }
serde_with = "3"
clap = { version = "4", features = ["derive", "env"] }
dotenv = "0.15"
once_cell = "1"
tower-http = { version = "0.4", features = ["trace"] }
tracing = "0.1"
tracing-subscriber = { version = "0.3", features = ["env-filter"] }
env_logger = "0.10"
anyhow = "1"
thiserror = "1"
async-trait = "0.1"
