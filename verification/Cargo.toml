[package]
name = "chat_relay"
version = "0.1.0"
edition = "2021"
publish = false

[dependencies]
tokio = { version = "=1.53.2", features = ["macros", "rt-multi-thread"] }
teloxide = { version = "=0.17.0", features = ["macros"] }
dptree = "=0.5.1"
sqlx = { version = "=0.7.4", features = ["runtime-tokio-rustls", "sqlite", "postgres", "chrono"] }
reqwest = { version = "=0.12.28", default-features = false, features = ["json", "multipart", "rustls-tls"] }
serde = { version = "=1.0.229", features = ["derive"] }
serde_json = "=1.0.151"
chrono = { version = "=0.4.45", features = ["serde"] }
dotenv = "=0.15.0"
log = "=0.4.34"
pretty_env_logger = "=0.5.0"
takecell = "=0.1.1"
