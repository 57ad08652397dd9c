[package]
name = "api_requests"
version = "0.1.0"
edition = "2021"
publish = false

[dependencies]
actix-files = "0.6"
actix-web = { version = "4", default-features = false, features = ["macros"] }
chrono = { version = "0.4", default-features = false, features = ["clock"] }
queryst = "*"
serde = { version = "1", features = ["derive"] }
serde_json = "1"
ts-rs = "*"
