[package]
name = "cryptocurrency"
version = "0.1.0"
edition = "2021"
publish = false

[dependencies]
exonum = "0.2"
serde = { version = "1", features = ["derive"] }
serde_derive = "1"
serde_json = "1"
iron = "0.5"
router = "0.5"
bodyparser = "0.7"
