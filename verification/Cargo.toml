[package]
name = "rodalies"
version = "0.1.0"
edition = "2021"
publish = false

[dependencies]
chrono = "*"
clap = { version = "*", features = ["cargo", "env"] }
prettytable-rs = "*"
scraper = "*"
serde_json = "*"
surf = { version = "*", default-features = false, features = ["h1-client-rustls"] }
tokio = { version = "*", features = ["rt-multi-thread", "macros"] }
