[package]
name = "session_auth"
version = "0.1.0"
edition = "2021"
publish = false

[dependencies]
actix-web = { version = "4", default-features = false, features = ["macros", "cookies"] }
anyhow = "1"
argon2 = { version = "0.5", features = ["std"] }
askama = "0.12"
chrono = { version = "0.4", default-features = false, features = ["std", "now"] }
dotenv = "0.15"
env_logger = "0.11"
futures = "0.3"
jsonwebtoken = "9"
serde = { version = "1", features = ["derive"] }
serde_json = "1"
sqlx = { version = "0.7", default-features = false, features = ["postgres", "runtime-tokio", "macros"] }
strum_macros = "0.26"
tracing = "0.1"
tracing-error = "0.2"
