[package]
name = "butler"
version = "0.1.0"
edition = "2021"
publish = false

[dependencies]
chrono = "=0.4.45"
dashmap = "=6.2.1"
humantime = "=2.4.0"
itertools = "=0.14.0"
time = { version = "=0.3.55", features = ["local-offset"] }
serenity = { version = "=0.12.5", default-features = false, features = ["builder", "cache", "chrono", "client", "gateway", "model", "http", "rustls_backend", "utils"] }
poise = "=0.6.2"
sqlx = { version = "=0.8.6", default-features = false, features = ["postgres", "runtime-tokio", "migrate"] }
tokio = { version = "=1.54.1", features = ["macros", "rt-multi-thread"] }
color-eyre = "=0.6.5"
tracing = "=0.1.44"
tracing-subscriber = "=0.3.23"
toml = "=0.8.23"
serde = { version = "=1.0.229", features = ["derive"] }
ctrlc = "=3.5.2"
uptime_kuma_pusher = "*"
