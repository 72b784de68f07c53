[package]
name = "esp_at_nal"
version = "0.1.0"
edition = "2021"
publish = false

[dependencies]
atat = "0.18"
embedded-nal = "0.6"
fugit = "0.3"
fugit-timer = "0.1"
heapless = "0.7"
nb = "1"
