[package]
name = "find_fde"
version = "0.1.0"
edition = "2021"
publish = false

[dependencies]
gimli = { version = "*", default-features = false, features = ["read"] }
