[package]
name = "pi_launcher"
version = "0.1.0"
edition = "2021"
publish = false

[dependencies]
serde_json = "1"
flate2 = "1"
dirs = "*"
tar = "0.4"
reqwest = { version = "*", default-features = false, features = ["blocking"] }
