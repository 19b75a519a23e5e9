[package]
name = "download_bot"
version = "0.1.0"
edition = "2021"
publish = false

[dependencies]
teloxide = { version = "=0.12.2", features = ["macros"] }
tokio = { version = "=1.54.1", features = ["rt-multi-thread", "macros", "fs", "sync", "time", "process"] }
dptree = "=0.3.0"
dotenv = "=0.15.0"
env_logger = "=0.10.2"
log = "=0.4.34"
takecell = "=0.1.1"
