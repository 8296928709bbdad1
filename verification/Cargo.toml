[package]
name = "yts_movies"
version = "0.1.0"
edition = "2021"
publish = false

[dependencies]
reqwest = { version = "*", features = ["blocking"] }
scraper = "*"
thiserror = "*"
