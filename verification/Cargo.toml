[package]
name = "rcesc"
version = "0.1.0"
edition = "2021"
publish = false

[dependencies]
cortex-m-rt = "=0.7.7"
embedded-hal = { version = "=0.2.7", features = ["unproven"] }
stm32f1xx-hal = { version = "=0.10.0", features = ["medium", "rt", "stm32f103"] }
