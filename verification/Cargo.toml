[package]
name = "notifier"
version = "0.1.0"
edition = "2021"
publish = false

[dependencies]
chrono = { version = "=0.4.45", features = ["serde"] }
clap = "=4.6.7"
eyre = "=0.6.14"
prettytable-rs = "=0.10.0"
reqwest = { version = "=0.13.5", default-features = false, features = ["blocking"] }
serde = { version = "=1.0.229", features = ["derive"] }
serde_yaml = "=0.9.34"
syndication = "=0.5.0"
