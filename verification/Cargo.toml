[package]
name = "carrot-cake"
version = "0.1.0"
edition = "2021"
publish = false

[dependencies]
anyhow = "=1.0.104"
chrono = "=0.4.45"
dashmap = "=6.2.1"
dotenv = "=0.15.0"
http = "=1.5.0"
humantime = "=2.4.0"
lazy_static = "=1.5.1"
log = "=0.4.35"
opentelemetry = "=0.33.1"
opentelemetry-appender-tracing = "=0.33.1"
opentelemetry-otlp = "=0.33.1"
opentelemetry_sdk = "=0.33.1"
regex = "=1.13.1"
reqwest = { version = "=0.12.28", default-features = false, features = ["rustls-tls"] }
reqwest-middleware = "=0.4.2"
reqwest-tracing = "=0.5.8"
serde = { version = "=1.0.229", features = ["derive"] }
serde_json = "=1.0.154"
serenity = "=0.12.5"
tokio = { version = "=1.54.1", features = ["full"] }
tokio-tungstenite = { version = "=0.30.0", features = ["rustls-tls-native-roots"] }
tracing = "=0.1.44"
tracing-opentelemetry = "=0.34.0"
tracing-subscriber = { version = "=0.3.23", features = ["env-filter"] }
twitch_api = { version = "0.8", features = ["client", "helix", "eventsub", "twitch_oauth2"] }
url-builder = "=0.1.1"
urlencoding = "=2.1.3"
yaml_serde = "=0.10.7"
