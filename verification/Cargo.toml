[package]
name = "ton_mixer"
version = "0.1.0"
edition = "2021"
publish = false

[dependencies]
crc32fast = "1"
num-bigint = "0.4"
hex = "0.4"
base64 = "*"
tonlib = "*"
tonlib-core = "*"
serde = { version = "1", features = ["derive"] }
serde_json = "1"
actix-web = "4"
actix-cors = "*"
dotenv = "0.15"
num_cpus = "1"
