[package]
name = "meridian"
version = "0.1.0"
edition = "2021"
publish = false

[dependencies]
aes-gcm = "0.10"
base64 = "0.22"
hex = "0.4"
rand = "0.8"
uuid = { version = "1", features = ["v4"] }
chrono = "0.4"
zeroize = "1"
serde = { version = "1", features = ["derive"] }
serde_json = "1"
anyhow = "1"
log = "0.4"
thiserror = "1"
url = "2"
tokio = { version = "1", features = ["rt-multi-thread", "macros", "sync", "time"] }
reqwest = { version = "0.12", default-features = false, features = ["json", "stream", "rustls-tls"] }
rusqlite = { version = "0.31", features = ["bundled"] }
keyring = "3"
tiny_http = "0.12"
open = "5"
futures-util = "0.3"
async-trait = "0.1"
env_logger = "0.11"
oauth2 = "4"
