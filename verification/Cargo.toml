[package]
name = "carbonara"
version = "0.1.0"
edition = "2021"
publish = false

[dependencies]
argh = "*"
okstd = "*"
serde = { version = "*", features = ["derive"] }
serde_json = "*"
uom = "*"
