[package]
name = "dronelink"
version = "0.1.0"
edition = "2021"
publish = false

[dependencies]
mavlink = { version = "=0.18.0", default-features = false, features = ["std", "transport-direct-serial", "dialect-common"] }
serialport = { version = "=4.10.1", default-features = false }
