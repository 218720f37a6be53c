[package]
name = "dvhost"
version = "0.1.0"
edition = "2021"
publish = false

[dependencies]
hex = "*"
rand = "0.8"
uuid = { version = "*", features = ["v4"] }
serde = { version = "*", features = ["derive"] }
serde_json = "*"
reqwest = { version = "*", default-features = false, features = ["blocking", "json"] }
