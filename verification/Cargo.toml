[package]
name = "adocsite"
version = "0.1.0"
edition = "2021"
publish = false

[dependencies]
scraper = "=0.29.0"
walkdir = "=2.5.0"
