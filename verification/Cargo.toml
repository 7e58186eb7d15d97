[package]
name = "relayctl"
version = "0.1.0"
edition = "2021"
publish = false

[dependencies]
url = "*"
anyhow = "*"
log = "*"
esp-idf-hal = "*"
esp-idf-svc = "*"
