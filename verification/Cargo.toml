[package]
name = "feed_curator"
version = "0.1.0"
edition = "2021"
publish = false

[dependencies]
feed-rs = "=1.5.3"
scraper = { version = "=0.17.1", features = ["deterministic"] }
readability = { version = "=0.3.0", default-features = false }
url = "=2.5.8"
urlencoding = "=2.1.3"
html-escape = "=0.2.15"
image = { version = "=0.24.9", features = ["webp-encoder"] }
chrono = "=0.4.45"
sled = "=0.34.7"
reqwest = { version = "=0.11.27", default-features = false, features = ["rustls-tls", "json"] }
serde = { version = "=1.0.229", features = ["derive"] }
serde_json = "=1.0.154"
bincode = "=1.3.3"
tokio = { version = "=1.54.1", features = ["full"] }
futures = "=0.3.34"
axum = "=0.6.20"
tower = "=0.4.13"
tower-http = { version = "=0.4.4", features = ["fs", "compression-gzip"] }
tracing-subscriber = "=0.3.23"
toml = "=0.8.23"
async-openai = "=0.14.3"
base64 = "0.21"
piped = "=0.0.4"
