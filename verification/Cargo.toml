[package]
name = "compass"
version = "0.1.0"
edition = "2021"
publish = false

[dependencies]
cortex-m = "0.7"
cortex-m-rt = "0.7"
embedded-hal = "0.2"
lsm303dlhc = "0.2"
stm32f3xx-hal = { version = "0.9", features = ["stm32f303xc"] }
