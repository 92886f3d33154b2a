[package]
name = "binance_cli"
version = "0.1.0"
edition = "2021"
publish = false

[dependencies]
anyhow = "1"
binance_spot_connector_rust = { version = "1", features = ["enable-hyper"] }
chrono = "0.4"
clap = { version = "4", features = ["derive"] }
colored = "2"
dirs = "5"
futures-util = "0.3"
hex = "0.4"
hmac = "0.12"
hyper = { version = "0.14", features = ["client", "http1", "tcp"] }
hyper-tls = "0.5"
reqwest = "0.11"
rust_decimal = "1"
serde = { version = "1", features = ["derive"] }
serde_json = "1"
sha2 = "0.10"
thiserror = "1"
tokio = { version = "1", features = ["full"] }
tokio-tungstenite = { version = "0.20", features = ["native-tls"] }
toml = "0.8"
url = "2"
