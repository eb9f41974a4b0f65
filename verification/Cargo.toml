[package]
name = "todo_lifecycle"
version = "0.1.0"
edition = "2021"
publish = false

[dependencies]
uuid = { version = "1", features = ["v4"] }
serde = { version = "1", features = ["derive"] }
actix-web = { version = "4", default-features = false, features = ["macros"] }
aws-config = "*"
aws-sdk-dynamodb = "*"
derive_more = { version = "*", features = ["display"] }
env_logger = "*"
log = "0.4"
