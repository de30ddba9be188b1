[package]
name = "zenocode"
version = "0.1.0"
edition = "2021"
publish = false

[dependencies]
clap = { version = "=4.6.7", features = ["derive"] }
ratatui = "=0.30.2"
reqwest = { version = "=0.13.5", default-features = false, features = ["blocking", "json"] }
serde = { version = "=1.0.229", features = ["derive"] }
