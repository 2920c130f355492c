[package]
name = "night_ride"
version = "0.1.0"
edition = "2021"
publish = false

[dependencies]
heapless = "=0.8.0"
critical-section = { version = "=1.2.0", features = ["std"] }
cortex-m = "=0.7.10"
cortex-m-rt = "=0.7.7"
defmt = "=0.3.101"
defmt-rtt = "=0.4.2"
embedded-graphics = "=0.8.2"
embedded-hal = "=1.0.0"
panic-probe = { version = "=0.3.2", features = ["print-defmt"] }
rp-pico = { version = "=0.9.0", default-features = false, features = ["boot2", "rt", "rom-func-cache"] }
ssd1306 = "=0.8.4"
tinybmp = "=0.5.0"
