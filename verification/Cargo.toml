[package]
name = "dotnet_plugin"
version = "0.1.0"
edition = "2021"
publish = false

[dependencies]
extism-pdk = "1"
proto_pdk = "0.17"
semver = "1"
serde = { version = "1", features = ["derive"] }
serde_json = "1"
