[package]
name = "aurora_rs"
version = "0.1.0"
edition = "2021"
publish = false

[dependencies]
crc16 = "*"
toml = "*"
chrono = "*"

[dev-dependencies]
byteorder = "*"
