[package]
name = "hashira"
version = "0.1.0"
edition = "2021"
publish = false

[dependencies]
matchit = "=0.7.3"
indexmap = "=1.9.3"
http = "=0.2.12"
bytes = "1"
anyhow = "1"
thiserror = "1"
log = "0.4"
tracing = "0.1"
futures = "0.3"
tokio = { version = "1", features = ["full"] }
tokio-stream = { version = "0.1", features = ["sync"] }
axum = { version = "0.6", features = ["ws"] }
hyper = { version = "0.14", features = ["full"] }
tower-http = { version = "0.4", features = ["fs"] }
notify = "5"
notify-debouncer-mini = "0.2"
clap = { version = "4", features = ["derive"] }
flate2 = "1"
tar = "0.4"
zip = { version = "0.6", default-features = false, features = ["deflate"] }
reqwest = { version = "0.11", default-features = false, features = ["stream"] }
tempfile = "3"
dunce = "1"
glob = "0.3"
cap-std = "1"
cap-directories = "1"

[dev-dependencies]
serde_json = "1"
