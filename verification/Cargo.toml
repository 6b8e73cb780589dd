[package]
name = "longfi_bsp"
version = "0.1.0"
edition = "2021"
publish = false

[dependencies]
stm32l0xx-hal = { version = "=0.10.0", features = ["stm32l0x2", "disable-linker-script"] }
cortex-m = "=0.7.9"
embedded-hal = "=0.2.7"
nb = "=1.1.0"
