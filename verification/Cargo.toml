[package]
name = "dialtone"
version = "0.1.0"
edition = "2021"
publish = false

[dependencies]
cortex-m = "*"
cortex-m-rt = "*"
nb = "*"
panic-halt = "*"
rtt-target = "*"
stm32f1xx-hal = { version = "*", features = ["stm32f103", "medium"] }
