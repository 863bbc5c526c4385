[package]
name = "mn_rs"
version = "0.1.0"
edition = "2021"
publish = false

[dependencies]
serde_json = "=1.0.154"
scraper = "=0.29.0"
deepl = "=0.8.2"
regex = "=1.13.1"
lazy_static = "=1.5.1"
anyhow = "=1.0.104"
thiserror = "=2.0.21"
tokio = { version = "=1.54.1", features = ["full"] }
reqwest = { version = "0.12", features = ["json"] }
grammers-client = { version = "=0.6.0", features = ["html"] }
grammers-mtsender = "0.5"
grammers-session = "0.5"
grammers-tl-types = "0.6"
sqlx = { version = "=0.9.0", features = ["postgres", "runtime-tokio"] }
dotenv = "=0.15.0"
tracing = "=0.1.44"
tracing-subscriber = "=0.3.23"
