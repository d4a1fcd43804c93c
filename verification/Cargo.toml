[package]
name = "ticker_hub"
version = "0.1.0"
edition = "2021"
publish = false

[dependencies]
serde_json = "1"
serde = { version = "1", features = ["derive"] }
tokio = { version = "1", features = ["macros", "rt-multi-thread", "sync", "time"] }
tokio-tungstenite = { version = "0.20", features = ["native-tls"] }
tungstenite = "0.20"
futures-util = "0.3"
redis = "0.23"
reqwest = { version = "0.11", default-features = false, features = ["native-tls"] }
axum = { version = "0.6", features = ["ws"] }
async-graphql = { version = "5", default-features = false, features = ["playground"] }
async-graphql-axum = "5"
sqlx = { version = "0.7", default-features = false, features = ["runtime-tokio", "sqlite"] }
config = { version = "0.13", default-features = false }
dotenv = "0.15"
env_logger = "0.10"
eyre = "0.6"
log = "0.4"
once_cell = "1"
