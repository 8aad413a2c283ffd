[package]
name = "jinn-domain"
version = "0.1.0"
edition = "2021"
publish = false

[dependencies]
unicode-segmentation = "1"
jiff = "0.2"
serde = { version = "1", features = ["derive"] }
ratatui = { version = "0.29", default-features = false }
