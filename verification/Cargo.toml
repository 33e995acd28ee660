[package]
name = "actix-jwt-auth-middleware"
version = "0.1.0"
edition = "2021"
publish = false

[dependencies]
actix-web = { version = "4", default-features = false, features = ["cookies"] }
chrono = "0.4"
form_urlencoded = "1"
jwt-compact = "0.8"
serde = { version = "1", features = ["derive"] }
serde_json = "1"
