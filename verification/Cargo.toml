[package]
name = "typed_routes"
version = "0.1.0"
edition = "2021"
publish = false

[dependencies]
serde = { version = "*", features = ["derive"] }
serde_json = "*"
serde_urlencoded = "*"
http = "*"
gloo-net = "*"
actix-web = { version = "*", default-features = false }
actix-service = "*"
