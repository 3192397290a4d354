[package]
name = "picoplay"
version = "0.1.0"
edition = "2021"
publish = false

[dependencies]
biski64 = "=0.3.2"
rand_core = "=0.9.5"
heapless = "=0.8.0"
embedded-graphics = "=0.8.2"
embedded-graphics-simulator = "=0.8.0"
cyw43 = "=0.7.0"
defmt = "=1.2.0"
defmt-rtt = "=1.3.1"
display-interface-spi = "=0.5.0"
embassy-embedded-hal = "=0.6.0"
embassy-executor = "=0.10.0"
embassy-net = "=0.9.1"
embassy-rp = "=0.10.0"
embassy-sync = "=0.8.0"
embassy-time = "=0.5.1"
ili9341 = "=0.6.0"
static_cell = "=2.1.1"
