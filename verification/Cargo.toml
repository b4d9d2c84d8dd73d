[package]
name = "gateway_client"
version = "0.1.0"
edition = "2021"
publish = false

[dependencies]
url = "=2.5.8"
tokio = { version = "=1.53.2", features = ["rt", "time", "sync", "macros", "net"] }
tokio-tungstenite = "=0.30.0"
futures = "=0.3.34"
typemap_rev = "=0.4.0"
async-trait = "=0.1.92"
reqwest = { version = "=0.13.5", default-features = false }
serde_json = "*"
