[package]
name = "arcana_launcher"
version = "0.1.0"
edition = "2021"
publish = false

[dependencies]
zip = { version = "*", default-features = false, features = ["deflate"] }
reqwest = { version = "*", default-features = false, features = ["stream"] }
tokio = { version = "*", default-features = false, features = ["rt-multi-thread", "macros"] }
futures-util = "*"
dirs = "*"
