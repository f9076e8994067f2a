[package]
name = "url_shortener"
version = "0.1.0"
edition = "2021"
publish = false

[dependencies]
mongodb = "2"
rocket = { version = "0.5", features = ["json"] }
rocket_db_pools = { version = "*", features = ["mongodb"] }
serde_json = "1"
