[package]
name = "karaokify"
version = "0.1.0"
edition = "2021"
publish = false

[dependencies]
url = "2"
addr = "*"
tokio = { version = "1", default-features = false, features = ["rt-multi-thread", "macros", "time", "fs", "io-util", "sync", "process"] }
reqwest = { version = "*", default-features = false, features = ["json"] }
serde = { version = "1", features = ["derive"] }
serde_json = "1"
zip = { version = "*", default-features = false, features = ["deflate"] }
