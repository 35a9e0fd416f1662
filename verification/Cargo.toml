[package]
name = "ajou_parser"
version = "0.1.0"
edition = "2021"
publish = false

[dependencies]
anyhow = "=1.0.104"
chromiumoxide = { version = "=0.5.7", default-features = false, features = ["tokio-runtime", "_fetcher-rusttls-tokio"] }
chrono = "=0.4.45"
chrono-tz = "=0.8.6"
dotenv = "=0.15.0"
futures = "=0.3.34"
mongodb = "=2.8.2"
reqwest = { version = "=0.11.27", features = ["json"] }
scraper = "=0.16.0"
serde = { version = "=1.0.229", features = ["derive"] }
serde_json = "=1.0.154"
tokio = { version = "=1.54.1", features = ["full"] }
tokio-stream = "=0.1.19"
tracing = "=0.1.44"
