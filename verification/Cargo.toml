[package]
name = "auctioneer"
version = "0.1.0"
edition = "2021"
publish = false

[dependencies]
serde = { version = "1", features = ["derive"] }
sha2 = "0.10"
tokio = { version = "1", features = ["macros", "rt", "sync"] }
tokio-stream = "0.1"
tracing = "0.1"
