[package]
name = "evelyn"
version = "0.1.0"
edition = "2021"
publish = false

[dependencies]
bson = "2"
chrono = { version = "0.4", default-features = false, features = ["std"] }
config = "0.14"
hyper = { version = "0.14", features = ["server", "http1", "tcp"] }
jsonwebtoken = "9"
log = "0.4"
log4rs = "1"
mongodb = { version = "3", features = ["sync"] }
serde = { version = "1", features = ["derive"] }
serde_json = "1"
tokio = { version = "1", features = ["rt-multi-thread"] }
uuid = { version = "1", features = ["v4"] }
