[package]
name = "pedalrs"
version = "0.2.0"
edition = "2021"
publish = false

[dependencies]
cortex-m = "=0.7.10"
cortex-m-rt = "=0.7.7"
panic-halt = "=0.2.0"
embedded-hal = "=0.2.7"
switch-hal = "=0.4.0"
usb-device = "=0.2.9"
usbd-hid = "=0.6.2"
serde = { version = "=1.0.229", default-features = false }
stm32f1xx-hal = { version = "=0.9.0", features = ["stm32f103", "rt", "medium"] }
eeprom = { version = "=0.3.1", features = ["stm32f103"] }
