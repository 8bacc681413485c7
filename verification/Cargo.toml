[package]
name = "receiver"
version = "0.1.0"
edition = "2021"
publish = false

[dependencies]
const_format = "0.2"
cortex-m-rt = "0.7"
defmt = "1"
defmt-rtt = "1"
embassy-executor = "0.10"
embassy-rp = "0.10"
embassy-sync = "0.8"
embassy-time = "0.5"
embedded-graphics = "0.8"
embedded-sdmmc = "0.9"
lora-phy = "3"
panic-probe = "1"
ssd1306 = "0.10"
static_cell = "2"
