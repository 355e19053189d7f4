[package]
name = "movie-feed"
version = "0.1.0"
edition = "2021"
publish = false

[dependencies]
ammonia = "4"
axum = "0.8"
axum-client-ip = "1"
chrono = { version = "0.4", features = ["serde"] }
figment = { version = "0.10", features = ["env"] }
http = "1"
humantime = "2"
itertools = "0.14"
mime = "0.3"
mockito = "1"
reqwest = { version = "0.12", default-features = false, features = ["json", "rustls-tls"] }
rss = "2"
secrecy = { version = "0.10", features = ["serde"] }
serde = { version = "1", features = ["derive"] }
serde_json = "1"
thiserror = "2"
tokio = { version = "1", features = ["macros", "net", "rt-multi-thread"] }
tower-http = { version = "0.6", features = ["add-extension", "request-id", "timeout", "trace"] }
tracing = "0.1"
tracing-subscriber = { version = "0.3", features = ["env-filter"] }
unicode-segmentation = "1"
url = "2"
