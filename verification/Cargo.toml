[package]
name = "mini_magentic"
version = "0.1.0"
edition = "2021"
publish = false

[dependencies]
serde = { version = "1", features = ["derive"] }
serde_json = "1"
url = "2"
tldextract = "*"
chrono = "0.4"
uuid = { version = "1", features = ["v4"] }
urlencoding = "2"
regex = "1"
anyhow = "1"
thiserror = "1"
tokio = { version = "1", features = ["full"] }
tokio-util = "0.7"
reqwest = { version = "0.12", features = ["json"] }
colored = "2"
rustyline = "*"
dialoguer = "*"
axum = "0.7"
base64 = "0.22"
async-trait = "0.1"
async-channel = "2"
futures = "0.3"
tracing = "0.1"
dotenv = "0.15"
lazy_static = "1"
dyn-clone = "1"
