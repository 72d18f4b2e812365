[package]
name = "pr_mirror"
version = "0.1.0"
edition = "2021"
publish = false

[dependencies]
url = "2"
serde_json = "1"
serde = { version = "1", features = ["derive"] }
axum = { version = "0.6", features = ["headers"] }
headers = "0.3"
tokio = { version = "1", features = ["macros", "rt-multi-thread"] }
reqwest = { version = "0.11", default-features = false, features = ["json", "rustls-tls"] }
git2 = "0.18"
tempfile = "3"
toml = "0.5"
log = "0.4"
hmac = "0.12"
sha1 = "0.10"
hex = "0.4"
