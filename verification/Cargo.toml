[package]
name = "thermopanel"
version = "0.1.0"
edition = "2021"
publish = false

[dependencies]
cortex-m = "0.7"
cortex-m-rt = "0.7"
micromath = "*"
stm32g0xx-hal = { version = "*", features = ["stm32g071", "rt"] }
