[package]
name = "maazdb"
version = "0.1.0"
edition = "2021"
publish = false

[dependencies]
byteorder = "=1.5.0"
rustls = { version = "=0.21.12", features = ["dangerous_configuration"] }
