[package]
name = "campp"
version = "0.1.0"
edition = "2021"
publish = false

[dependencies]
dirs = "*"
hex = "*"
serde = { version = "*", features = ["derive"] }
serde_json = "*"
sha2 = "*"
