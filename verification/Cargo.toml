[package]
name = "unisport_bot"
version = "0.1.0"
edition = "2021"
rust-version = "1.95"
publish = false

[dependencies]
chrono = "=0.4.45"
chrono-tz = "=0.10.4"
color-eyre = "=0.6.5"
dotenvy = "=0.15.7"
dptree = "=0.5.1"
emojis = "=0.9.1"
encoding = "=0.2.33"
form_urlencoded = "=1.2.2"
log = "=0.4.34"
pretty_env_logger = "=0.5.0"
regex = "=1.13.1"
reqwest = { version = "=0.12.28", default-features = false, features = ["rustls-tls"] }
scraper = "=0.29.0"
serde = { version = "=1.0.229", features = ["derive"] }
sqlx = { version = "=0.9.0", default-features = false, features = ["postgres", "runtime-tokio", "tls-rustls", "macros", "migrate"] }
takecell = "=0.1.1"
teloxide = { version = "=0.17.0", default-features = false, features = ["macros", "redis-storage", "bincode-serializer", "ctrlc_handler", "rustls"] }
tokio = { version = "=1.54.1", features = ["macros", "rt-multi-thread", "time"] }
url = "=2.5.8"
