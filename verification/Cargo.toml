[package]
name = "arima_console"
version = "0.1.0"
edition = "2021"
publish = false

[dependencies]
clap = { version = "4", features = ["derive"] }
dialoguer = { version = "0.11", default-features = false, features = ["fuzzy-select"] }
