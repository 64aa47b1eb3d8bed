[package]
name = "watchcat_server"
version = "0.1.0"
edition = "2021"
publish = false

[dependencies]
actix-cors = "=0.7.2"
actix-web = "=4.18.1"
anstyle = "=1.0.14"
anyhow = "=1.0.104"
chrono = { version = "=0.4.45", features = ["serde"] }
dotenvy = "=0.15.7"
env_logger = "=0.11.11"
futures-util = "=0.3.34"
google-oauth = "=1.11.4"
log = "=0.4.35"
regex = "=1.13.1"
serde = { version = "=1.0.229", features = ["derive"] }
sqlx = { version = "=0.8.6", default-features = false, features = ["mysql", "chrono", "runtime-tokio", "derive"] }
tracing = "=0.1.44"
