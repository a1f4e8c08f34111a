[package]
name = "smart_home"
version = "0.1.0"
edition = "2021"
publish = false

[dependencies]
anyhow = "1"
log = "0.4"
dht11 = "*"
embedded-hal = "0.2"
esp-idf-hal = "*"
esp-idf-svc = "*"
