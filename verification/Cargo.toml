[package]
name = "fondant"
version = "0.1.0"
edition = "2021"
publish = false

[dependencies]
directories = "2.0"
serde = "1.0"
serde_json = "1.0"
serde_yaml = "0.8"
toml = "0.5"
