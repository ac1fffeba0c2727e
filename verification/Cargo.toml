[package]
name = "launchcore"
version = "0.1.0"
edition = "2021"
publish = false

[dependencies]
lnk = "*"
log = "*"

[dev-dependencies]
base64 = "*"
