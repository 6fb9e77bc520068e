[package]
name = "zenoh_plugin_remote_api"
version = "0.1.0"
edition = "2021"
publish = false

[dependencies]
lru = "=0.18.5"
zenoh-keyexpr = "=1.10.1"
zenoh = { version = "=1.10.1", default-features = false, features = ["unstable", "internal"] }
tokio = { version = "*", features = ["rt-multi-thread", "macros", "net", "sync", "io-util", "time"] }
tokio-tungstenite = { version = "*", default-features = false, features = ["handshake"] }
futures = "*"
flume = "*"
serde = { version = "*", features = ["derive"] }
serde_json = "*"
tracing = "*"
