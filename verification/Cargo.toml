[package]
name = "screentap"
version = "0.1.0"
edition = "2021"
publish = false

[dependencies]
base64 = "*"
image = "*"
image_hasher = "*"
url = "*"
serde_json = "*"
ollama-rs = "*"
tokio = { version = "*", features = ["rt-multi-thread"] }
reqwest = { version = "*", default-features = false, features = ["blocking", "rustls-tls", "json"] }
rusqlite = { version = "*", features = ["bundled"] }
chrono = "*"
toml = "*"
serde = { version = "*", features = ["derive"] }
