[package]
name = "betterlytics"
version = "0.1.0"
edition = "2021"
publish = false

[dependencies]
sha2 = "=0.10.9"
chrono = "=0.4.45"
isbot = "=0.1.3"
url = "=2.5.8"
refparser = "=0.1.0"
uaparser = "=0.6.4"
maxminddb = "=0.32.0"
moka = { version = "=0.12.16", features = ["sync"] }
nanoid = "=0.4.0"
flate2 = "=1.1.10"
tar = "=0.4.46"
httpdate = "=1.0.3"
tokio = { version = "=1.54.1", features = ["rt-multi-thread", "macros", "sync", "time", "net"] }
anyhow = "=1.0.104"
axum = "=0.8.9"
bytes = "=1.12.1"
clickhouse = { version = "=0.15.3", features = ["inserter"] }
dotenv = "=0.15.0"
reqwest = { version = "=0.13.5", default-features = false }
serde = { version = "=1.0.229", features = ["derive"] }
serde_json = "=1.0.154"
tower-http = { version = "=0.7.1", features = ["cors"] }
tracing = "=0.1.44"
tracing-subscriber = { version = "=0.3.23", features = ["env-filter"] }
prometheus = "=0.14.0"
sysinfo = "=0.39.6"
