[package]
name = "listings"
version = "0.1.0"
edition = "2021"
publish = false

[dependencies]
quote = "1.0"
syn = "2.0"
