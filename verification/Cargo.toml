[package]
name = "wallclock"
version = "0.1.0"
edition = "2021"
publish = false

[dependencies]
aligned-vec = "0.6"
image = { version = "0.25", default-features = false, features = ["jpeg", "webp"] }
hmac-sha256 = "1"
base64 = "0.22"
anyhow = "1"
arc-swap = "1"
az = "1"
chrono = "0.4"
compact_str = "0.9"
cosmic-text = { version = "*", default-features = false, features = ["std", "swash"] }
drm = "*"
itertools = "*"
log = "0.4"
mimalloc = "*"
num-traits = "0.2"
reqwest = { version = "0.12", default-features = false, features = ["json", "rustls-tls"] }
serde = { version = "1", features = ["derive"] }
tokio = { version = "1", features = ["rt-multi-thread", "macros", "time", "sync"] }
toml = "*"
uuid = { version = "1", features = ["v4"] }
