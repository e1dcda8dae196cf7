[package]
name = "scraper_rs"
version = "0.1.0"
edition = "2021"
publish = false

[dependencies]
reqwest = { version = "*", default-features = false }
url = "*"
tl = "*"
nanoid = "*"
tokio = { version = "*", features = ["rt-multi-thread", "macros", "fs", "time"] }
async-channel = "*"
clap = { version = "*", features = ["derive"] }
tracing = "*"
tracing-subscriber = "*"
anyhow = "*"
