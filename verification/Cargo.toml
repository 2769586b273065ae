[package]
name = "fileshare"
version = "0.1.0"
edition = "2021"
publish = false

[dependencies]
uuid = { version = "*", features = ["v4"] }
mime_guess = "*"
chrono = "*"
actix-web = "*"
actix-cors = "*"
actix-multipart = "*"
futures-util = "*"
serde = { version = "*", features = ["derive"] }
serde_json = "*"
