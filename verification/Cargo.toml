[package]
name = "user_service"
version = "0.1.0"
edition = "2021"
publish = false

[dependencies]
validator = "*"
serde = { version = "*", features = ["derive"] }
actix-web = "*"
sea-orm = "*"
utoipa = { version = "*", features = ["actix_extras"] }
utoipa-swagger-ui = { version = "*", features = ["actix-web"] }
dotenv = "*"
env_logger = "*"
