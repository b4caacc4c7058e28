[package]
name = "notion_shim"
version = "0.1.0"
edition = "2021"
publish = false

[dependencies]
semver = "=0.9.0"
console = "=0.16.6"
docopt = "=1.1.1"
serde = { version = "=1.0.229", features = ["derive"] }
serde_json = "1"
toml = "0.8"
