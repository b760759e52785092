[package]
name = "probe_core"
version = "0.1.0"
edition = "2021"
publish = false

[dependencies]
bincode = { version = "=2.0.1", features = ["serde"] }
cortex-m = "=0.7.10"
embassy-executor = "=0.10.0"
embassy-stm32 = { version = "=0.6.0", features = ["stm32wb55cg", "time-driver-any"] }
embassy-time = { version = "=0.5.1", features = ["tick-hz-32_768"] }
embedded-alloc = "=0.7.0"
panic-halt = "=1.0.0"
postcard = { version = "=1.1.3", features = ["alloc"] }
serde = { version = "=1.0.229", features = ["derive"] }
static_cell = "=2.1.1"
stm32wb-hci = "=0.17.4"
