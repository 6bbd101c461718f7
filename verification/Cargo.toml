[package]
name = "ytdl_engine"
version = "0.1.0"
edition = "2021"
publish = false

[dependencies]
regex = "1"
serde_json = "1"
serde = { version = "1", features = ["derive"] }
tokio = { version = "1", features = ["process", "io-util", "fs", "rt-multi-thread", "macros"] }
iced = { version = "0.12", default-features = false, features = ["tokio"] }
reqwest = { version = "0.11", default-features = false, features = ["json", "rustls-tls"] }
zip = { version = "0.6", default-features = false, features = ["deflate"] }
