[package]
name = "json_toml_yaml"
version = "0.1.0"
edition = "2021"
publish = false

[dependencies]
serde = { version = "1", features = ["derive"] }
serde_json = "=1.0.151"
serde_yaml = "=0.9.34"
toml = "=1.1.7"
syntect = { version = "=5.3.0", default-features = false, features = ["default-syntaxes", "default-themes", "regex-fancy", "parsing"] }
eframe = { version = "=0.17.0", features = ["persistence"] }
