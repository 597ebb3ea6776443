[package]
name = "tower_router"
version = "0.1.0"
edition = "2021"
publish = false

[dependencies]
axum-core = "*"
bytes = "1"
futures-util = { version = "0.3", default-features = false, features = ["std"] }
http = "1"
http-body = "1"
itoa = "1"
pin-project-lite = "0.2"
tower = { version = "0.5", features = ["util"] }
tower-layer = "0.3"
tower-service = "0.3"
