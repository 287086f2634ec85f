[package]
name = "icon_cache"
version = "0.1.0"
edition = "2021"
publish = false

[dependencies]
md5 = "0.7"
axum = "0.8"
log = "0.4"
reqwest = { version = "0.12", default-features = false }
serde = { version = "1", features = ["derive"] }
tokio = { version = "1", features = ["fs", "rt", "sync"] }
