[package]
name = "usrp_receiver"
version = "0.1.0"
edition = "2021"
publish = false

[dependencies]
chrono = "*"
log = "*"
log4rs = "*"
serde = "*"
serde_derive = "*"
toml = "*"
