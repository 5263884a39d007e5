[package]
name = "wonderos"
version = "0.1.0"
edition = "2021"
publish = false

[dependencies]
cortex-m = "0.7"
cortex-m-rt = "0.7"
defmt = "0.3"
defmt-rtt = "0.4"
embedded-hal = "0.2"
lilos = "0.3"
nb = "1"
stm32f3xx-hal = { version = "0.9", features = ["stm32f303xc"] }
