[package]
name = "cardquery"
version = "0.1.0"
edition = "2021"
publish = false

[dependencies]
scryfall = "*"
tokio = { version = "*", features = ["rt"] }
