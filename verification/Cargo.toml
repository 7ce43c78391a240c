[package]
name = "payme_router"
version = "0.1.0"
edition = "2021"
publish = false

[dependencies]
async-trait = "0.1"
hex = "0.4"
md5 = "0.7"
serde = { version = "1", features = ["derive"] }
serde_json = "1"
serde_urlencoded = "0.7"
