[package]
name = "iota_msg_codec"
version = "0.1.0"
edition = "2021"
publish = false

[dependencies]
hex = "0.4"
bech32 = "0.9"
serde = { version = "1", features = ["derive"] }
serde_json = "1"
reqwest = { version = "0.12", default-features = false, features = ["blocking", "json"] }
