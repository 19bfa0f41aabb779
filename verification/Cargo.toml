[package]
name = "hopper_forwarding"
version = "0.1.0"
edition = "2021"
publish = false

[dependencies]
md5 = "*"
serde = { version = "*", features = ["derive"] }
tokio = { version = "*", features = ["net", "io-util"] }
async-trait = "*"
