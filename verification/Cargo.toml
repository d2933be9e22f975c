[package]
name = "story_catalog"
version = "0.1.0"
edition = "2021"
publish = false

[dependencies]
regex = "1"
slugify = "0.1"
uuid = { version = "0.8", features = ["v4"] }
serde = { version = "1", features = ["derive"] }
serde_json = "1"
bson = "1.2"
mongodb = "1.2"
futures = "0.3"
actix-web = "3"
actix-cors = "0.5"
actix-rt = "1"
