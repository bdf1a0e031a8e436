[package]
name = "skywars_installer"
version = "0.1.0"
edition = "2021"
publish = false

[dependencies]
serde_json = "*"
dirs = "*"
reqwest = { version = "*", default-features = false, features = ["blocking"] }
