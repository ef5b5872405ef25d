[package]
name = "pot"
version = "0.1.0"
edition = "2021"

[dependencies]
serde_json = "1"
reqwest = { version = "0.11", default-features = false }
tokio = { version = "1", features = ["macros", "rt-multi-thread"] }
clap = "2"
colored = "2"
