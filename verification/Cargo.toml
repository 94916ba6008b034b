[package]
name = "gpt_chat"
version = "0.1.0"
edition = "2021"
publish = false

[dependencies]
axum = { version = "0.6.20", features = ["macros"] }
chrono = { version = "0.4", features = ["serde"] }
comrak = { version = "0.43", default-features = false }
dotenv = "0.15"
futures = "0.3"
reqwest = { version = "0.11.27", default-features = false, features = ["json", "rustls-tls"] }
reqwest-eventsource = "0.5"
serde = { version = "1", features = ["derive"] }
serde_json = "1"
sqlx = { version = "0.7.4", default-features = false, features = ["runtime-tokio", "sqlite", "chrono", "migrate"] }
tera = { version = "1.20", default-features = false }
tokio = { version = "1", features = ["full"] }
tokio-stream = "0.1"
tower-cookies = "0.9"
tower-http = { version = "0.4.4", features = ["fs"] }
tracing = "0.1"
tracing-subscriber = { version = "0.3", features = ["env-filter"] }
