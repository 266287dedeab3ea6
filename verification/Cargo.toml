[package]
name = "market_pulse"
version = "0.1.0"
edition = "2021"
publish = false

[dependencies]
smart-leds = "0.4"
axum = { version = "0.8", features = ["macros"] }
axum-response-cache = "*"
tokio = { version = "1", features = ["full"] }
tokio-stream = "0.1"
serde = { version = "1", features = ["derive"] }
serde_json = "1"
rand = "0.9"
rand_distr = "0.5"
yahoo_finance_api = "*"
tracing-subscriber = "0.3"
dotenvy = "0.15"
anyhow = "1"
log = "0.4"
embassy-time = { version = "0.4", features = ["std"] }
