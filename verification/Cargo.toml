[package]
name = "aht10"
version = "0.1.0"
edition = "2021"
publish = false

[dependencies]
cortex-m = "0.7"
cortex-m-rt = "0.7"
cortex-m-semihosting = "0.5"
embedded-graphics = "0.8"
embedded-hal = "0.2"
heapless = "0.8"
panic-reset = "0.1"
shared-bus = "0.3"
ssd1306 = "0.8"
stm32f1xx-hal = { version = "0.10", features = ["stm32f103", "rt", "medium"] }
