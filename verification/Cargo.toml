[package]
name = "auth_core"
version = "0.1.0"
edition = "2021"
publish = false

[dependencies]
bcrypt = "=0.19.3"
jsonwebtoken = { version = "=11.1.0", features = ["rust_crypto"] }
serde_json = "*"
uuid = { version = "*", features = ["v4"] }
chrono = "*"
serde = { version = "*", features = ["derive"] }
actix-web = "*"
futures-util = "*"
env_logger = "*"
dotenv = "*"
