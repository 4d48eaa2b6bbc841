[package]
name = "gamayun"
version = "0.1.0"
edition = "2021"
publish = false

[dependencies]
actix-web = "=4.18.1"
anyhow = "=1.0.104"
async-trait = "=0.1.92"
chrono = "=0.4.45"
config = "=0.14.1"
dotenv = "=0.15.0"
grizzly_scheduler = "=0.2.0"
mongodb = "=3.9.1"
opentelemetry = "=0.26.0"
opentelemetry-otlp = "=0.26.0"
opentelemetry_sdk = { version = "=0.26.0", features = ["rt-tokio"] }
prost = "=0.13.5"
reqwest = { version = "=0.12.28", features = ["json"] }
serde = { version = "=1.0.229", features = ["derive"] }
serde_json = "=1.0.154"
tokio = { version = "=1.54.1", features = ["full"] }
tokio-util = "=0.7.20"
toml = "=0.8.23"
tonic = "=0.12.3"
tracing = "=0.1.44"
tracing-actix-web = "=0.7.25"
tracing-futures = "=0.2.5"
tracing-opentelemetry = "=0.27.0"
tracing-subscriber = { version = "=0.3.23", features = ["env-filter"] }
