[package]
name = "hlr_provision"
version = "0.1.0"
edition = "2021"
publish = false

[dependencies]
csv = "*"
rexpect = "*"
serde = { version = "*", features = ["derive"] }
