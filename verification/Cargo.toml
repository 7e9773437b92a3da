[package]
name = "dioxus_support"
version = "0.1.0"
edition = "2021"
publish = false

[dependencies]
anyhow = "=1.0.104"
cargo_metadata = "=0.19.2"
chrono = "=0.4.45"
console = "=0.15.11"
dioxus-cli-config = "0.5"
futures-channel = "=0.3.34"
futures-util = "=0.3.34"
generational-box = "=0.6.2"
serde_json = "=1.0.154"
tracing = "=0.1.44"
tracing-subscriber = { version = "=0.3.23", features = ["env-filter", "json"] }
