[package]
name = "querycat"
version = "0.1.0"
edition = "2021"
publish = false

[dependencies]
sha2 = "*"
hex = "*"
url = "*"
serde = { version = "*", features = ["derive"] }
serde_json = "*"
dotenv = "*"
