[package]
name = "godot_agent"
version = "0.1.0"
edition = "2021"
publish = false

[dependencies]
godot = "*"
serde_json = "1"
tiny_http = "0.12"
