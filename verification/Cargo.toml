[package]
name = "user_service"
version = "0.1.0"
edition = "2021"
publish = false

[dependencies]
actix-web = "*"
futures = "*"
mongodb = "*"
serde = { version = "*", features = ["derive"] }
