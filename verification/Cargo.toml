[package]
name = "msr_downloader"
version = "0.1.0"
edition = "2021"
publish = false

[dependencies]
sanitize-filename = "*"
url = "*"
reqwest = { version = "*", default-features = false, features = ["json", "stream"] }
tokio = { version = "*", features = ["rt-multi-thread", "macros", "fs", "io-util"] }
futures = "*"
serde = { version = "*", features = ["derive"] }
serde_json = "*"
thiserror = "*"
env_logger = "*"
indicatif = "*"
lofty = "*"
