[package]
name = "sensor_dashboard"
version = "0.1.0"
edition = "2021"
publish = false

[dependencies]
avr-device = { version = "*", features = ["atmega328pb"] }
