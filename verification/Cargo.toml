[package]
name = "bevy_brp_mcp"
version = "0.1.0"
edition = "2021"
publish = false

[dependencies]
chrono = "0.4"
proc-macro2 = "1"
quote = "1"
schemars = "1"
serde = { version = "1", features = ["derive"] }
serde_json = "1"
syn = "2"
tracing = "0.1"
