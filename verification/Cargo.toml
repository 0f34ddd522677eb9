[package]
name = "file_upload"
version = "0.1.0"
edition = "2021"
publish = false

[dependencies]
actix-multipart = { version = "0.6", default-features = false }
actix-web = { version = "4", default-features = false, features = ["macros"] }
futures-util = "0.3"
serde_json = "1"
