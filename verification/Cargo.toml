[package]
name = "router"
version = "0.1.0"
edition = "2021"
publish = false

[dependencies]
actix-web = { version = "4", default-features = false }
bytes = "1"
diesel = { version = "2", features = ["postgres", "time", "serde_json"] }
hex = "0.4"
ring = "0.17"
serde = { version = "1", features = ["derive"] }
serde_json = "1"
serde_urlencoded = "0.7"
time = "0.3"
