[package]
name = "garage"
version = "0.1.0"
edition = "2021"
publish = false

[dependencies]
futures = "=0.1.31"
gotham = "=0.3.0"
gotham_derive = "=0.3.0"
hyper = "=0.12.36"
linux-embedded-hal = "=0.5.0"
mime = "=0.3.17"
rppal = "=0.22.1"
serde_json = "=1.0.154"
simple-signal = "=1.1.1"
