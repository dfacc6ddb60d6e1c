[package]
name = "rustdesk_pp"
version = "0.1.0"
edition = "2021"
publish = false

[dependencies]
sha2 = "0.10"
rand = "0.8"
tokio = { version = "1", features = ["rt-multi-thread", "net", "io-util", "time", "fs", "macros"] }
serde = { version = "1", features = ["derive"] }
serde_json = "1"
reqwest = { version = "0.11", default-features = false, features = ["json"] }
