[package]
name = "led_fade"
version = "0.1.0"
edition = "2021"
publish = false

[dependencies]
embassy-executor = "*"
esp-bootloader-esp-idf = "*"
esp-hal = "*"
esp-rtos = "*"
