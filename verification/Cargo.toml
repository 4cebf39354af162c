[package]
name = "omnibench"
version = "0.1.0"
edition = "2021"
publish = false

[dependencies]
anyhow = "1"
log = "0.4"
esp-idf-svc = "*"
adafruit-seesaw = "*"
embedded-hal-bus = "*"
port-expander = "*"
