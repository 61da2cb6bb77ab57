[package]
name = "status_led"
version = "0.1.0"
edition = "2021"
publish = false

[dependencies]
defmt = "1"
defmt-rtt = "1"
embassy-executor = "0.9"
embassy-nrf = "0.8"
embassy-time = "0.5"
nrf-mpsl = "0.3"
nrf-sdc = "0.3"
panic-probe = "1"
rand_chacha = { version = "0.3", default-features = false }
rand_core = "0.6"
smart-leds = "0.4"
static_cell = "2"
ws2812-spi = "0.5"
