[package]
name = "aias_app"
version = "0.1.0"
edition = "2021"
publish = false

[dependencies]
rand = "0.7"
serde = { version = "1", features = ["derive"] }
serde_json = "1"
actix-web = "3"
actix-rt = "1"
actix-session = "0.4"
rusqlite = { version = "0.23", features = ["bundled"] }
twilio = "*"
