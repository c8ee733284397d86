[package]
name = "shapechangeable_display"
version = "0.1.0"
edition = "2021"
publish = false

[dependencies]
anyhow = "=1.0.104"
embedded-svc = "=0.28.1"
esp-idf-svc = "=0.51.0"
esp-ota = "=0.2.2"
log = "=0.4.34"
rand = "=0.8.8"
