[package]
name = "stm32_bringup"
version = "0.1.0"
edition = "2021"
publish = false

[dependencies]
bxcan = "=0.5.1"
cortex-m = "=0.7.9"
fdcan = { version = "=0.2.1", features = ["fdcan_h7"] }
synopsys-usb-otg = { version = "=0.5.0", features = ["hs"] }
