[package]
name = "shopify_api"
version = "0.7.0"
edition = "2021"
publish = false

[dependencies]
base64 = "0.22"
bytes = "1"
hmac = "0.12"
log = "0.4"
reqwest = { version = "0.12", default-features = false, features = ["json", "multipart", "rustls-tls"] }
serde = { version = "1", features = ["derive"] }
serde_json = "1"
sha2 = "0.10"
thiserror = "1"
tokio = { version = "1", features = ["time", "sync"] }
warp = "0.3"
