[package]
name = "rust_drission"
version = "0.2.2"
edition = "2021"
publish = false

[dependencies]
async-trait = "0.1"
base64 = "0.22"
dashmap = "5"
futures-util = "0.3"
reqwest = { version = "0.11", default-features = false, features = ["json"] }
serde = { version = "1", features = ["derive"] }
serde_json = "1"
thiserror = "1"
tokio = { version = "1", features = ["rt-multi-thread", "macros", "sync", "time", "net"] }
tokio-tungstenite = "0.21"
tracing = "0.1"
tungstenite = "0.21"
ureq = { version = "2", default-features = false }
url = "2"
winreg = "0.52"
