[package]
name = "esp32_hal"
version = "0.1.0"
edition = "2021"
publish = false

[dependencies]
embedded-hal = { version = "=0.2.7", features = ["unproven"] }
