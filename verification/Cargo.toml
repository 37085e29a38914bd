[package]
name = "doctui"
version = "0.1.0"
edition = "2021"
publish = false

[dependencies]
scraper = "=0.29.0"
thiserror = "=2.0.21"
rustdoc-types = "=0.61.0"
rustdoc-json = "=0.9.10"
serde_json = "=1.0.154"
dirs = "=7.0.0"
sarge = "=9.0.0"
errata = "=2.1.1"
cod = { version = "=9.0.5", features = ["crossterm"] }
antsy = "=1.1.0"
owo-colors = "=4.4.0"
