[package]
name = "redis_actor"
version = "0.1.0"
edition = "2021"
publish = false

[dependencies]
actix = "*"
log = "*"
redis = { version = "*", features = ["aio", "tokio-comp"] }
