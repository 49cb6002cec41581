[package]
name = "board_input"
version = "0.1.0"
edition = "2021"
publish = false

[dependencies]
arboard = "=3.6.1"
base64 = "=0.23.1"
enigo = "=0.6.1"
serde = { version = "=1.0.229", features = ["derive"] }
serde_json = "1"
