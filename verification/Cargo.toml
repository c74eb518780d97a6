[package]
name = "osrs_wiki_prices"
version = "0.1.0"
edition = "2021"
publish = false

[dependencies]
chrono = "0.4"
reqwest = "0.12"
serde_json = "1"
thiserror = "2"
