[package]
name = "ffxiv_tracker"
version = "0.1.0"
edition = "2021"
publish = false

[dependencies]
scraper = "=0.27.0"
rusqlite = { version = "=0.40.2", features = ["bundled", "fallible_uint"] }
clap = { version = "=4.6.7", features = ["derive"] }
ureq = "=3.4.2"
tracing = "=0.1.44"
tracing-subscriber = "=0.3.23"
