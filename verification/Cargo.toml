[package]
name = "youtube_downloader"
version = "0.1.0"
edition = "2021"
publish = false

[dependencies]
anyhow = "1"
dirs = "5"
rustube = { version = "0.6", default-features = false, features = ["callback", "download", "rustls-tls", "std"] }
tokio = { version = "1", features = ["macros", "rt-multi-thread"] }
url = "2"
