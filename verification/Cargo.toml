[package]
name = "form_filler"
version = "0.1.0"
edition = "2021"
publish = false

[dependencies]
fake = "2"
rand = "0.8"
colored = "2"
reqwest = { version = "0.12", default-features = false, features = ["blocking"] }
