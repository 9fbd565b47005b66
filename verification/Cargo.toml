[package]
name = "vsock_device"
version = "0.1.0"
edition = "2021"
publish = false

[dependencies]
log = "*"
serde = { version = "1", features = ["derive"] }
dbs-utils = "*"
dbs-device = "*"
