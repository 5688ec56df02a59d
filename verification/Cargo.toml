[package]
name = "ticket_bot"
version = "0.1.0"
edition = "2021"
publish = false

[dependencies]
regex = "=1.13.1"
qrcode-generator = "=4.1.9"
uuid = { version = "=1.29.1", features = ["v4"] }
mongodb = "=2.8.2"
url = "=2.5.8"
serde = { version = "=1.0.229", features = ["derive"] }
eyre = "=0.6.14"
tokio = { version = "=1.54.1", features = ["full"] }
axum = "=0.7.9"
teloxide = { version = "=0.12.2", default-features = false, features = ["macros", "ctrlc_handler", "rustls"] }
serenity = { version = "=0.12.5", default-features = false, features = ["builder", "cache", "client", "gateway", "http", "model", "utils", "rustls_backend"] }
takecell = "=0.1.1"
