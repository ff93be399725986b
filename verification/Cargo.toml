[package]
name = "downloads_badge"
version = "0.1.0"
edition = "2021"
publish = false

[dependencies]
serde_json = "*"
reqwest = { version = "*", default-features = false, features = ["json", "rustls-tls"] }
tokio = { version = "*", features = ["macros", "rt-multi-thread"] }
