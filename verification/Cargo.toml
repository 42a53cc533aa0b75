[package]
name = "todo_service"
version = "0.1.0"
edition = "2021"
publish = false

[dependencies]
argon2 = "=0.6.0"
jsonwebtoken = { version = "=11.1.0", features = ["rust_crypto"] }
serde_json = "=1.0.151"
validator = "=0.21.0"
serde = { version = "=1.0.229", features = ["derive"] }
actix-web = "=4.15.0"
dotenv = "=0.15.0"
