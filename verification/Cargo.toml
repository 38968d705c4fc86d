[package]
name = "ovira"
version = "0.1.0"
edition = "2021"
publish = false

[dependencies]
anchor-lang = { version = "0.31.2", features = ["init-if-needed"] }
anchor-spl = { version = "0.31.2", default-features = false, features = ["token", "associated_token"] }
