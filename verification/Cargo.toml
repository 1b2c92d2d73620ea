[package]
name = "rjss"
version = "0.1.0"
edition = "2021"
publish = false

[dependencies]
serde = { version = "1", features = ["derive"] }
serde_json = "1"
time = "0.3"
rand = "0.8"
cookie = "0.18"
url = "2"
urlencoding = "2"
regex = "1"
scraper = "*"
secrecy = "0.10"
sha2 = "0.10"
http = "1"
uuid = { version = "1", features = ["v4"] }
reqwest = { version = "0.12", default-features = false, features = ["cookies", "multipart", "json", "rustls-tls"] }
backoff = { version = "0.4", features = ["tokio"] }
tokio = { version = "1", features = ["rt-multi-thread", "macros", "time", "sync"] }
tracing = "0.1"
tracing-subscriber = { version = "0.3", features = ["env-filter", "json"] }
actix-web = { version = "4", default-features = false, features = ["macros"] }
actix-cors = "0.7"
dotenv = "0.15"
async-trait = "0.1"
thiserror = "1"
