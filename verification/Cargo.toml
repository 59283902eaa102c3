[package]
name = "esp32_nimble"
version = "0.1.0"
edition = "2021"
publish = false

[dependencies]
bitflags = "=2.13.2"
esp-idf-sys = { version = "=0.33.7", default-features = false, features = ["native"] }
num_enum = { version = "=0.7.6", default-features = false }
