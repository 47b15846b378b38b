[package]
name = "tarkov_activity"
version = "0.1.0"
edition = "2021"
publish = false

[dependencies]
anyhow = "1"
eframe = { version = "0.22", default-features = false, features = ["default_fonts", "glow"] }
image = { version = "0.24", default-features = false, features = ["png"] }
rand = "0.8"
reqwest = { version = "0.11", features = ["blocking"] }
scraper = "*"
winapi = { version = "0.3", features = ["winuser"] }
