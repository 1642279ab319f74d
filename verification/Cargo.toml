[package]
name = "hall_commutation"
version = "0.1.0"
edition = "2021"
publish = false

[dependencies]
cortex-m = "0.7"
cortex-m-rt = "0.7"
micromath = "2"
panic-halt = "*"
stm32f4xx-hal = { version = "0.22", features = ["stm32f411"] }
