[package]
name = "reddit_browser"
version = "0.1.0"
edition = "2021"
publish = false

[dependencies]
roux = "*"
tokio = { version = "1", features = ["rt-multi-thread", "macros"] }
reqwest = { version = "*", default-features = false, features = ["json", "rustls-tls"] }
serde = { version = "*", features = ["derive"] }
