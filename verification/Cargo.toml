[package]
name = "watering"
version = "0.1.0"
edition = "2021"
publish = false

[dependencies]
bme280-rs = "=0.4.1"
cyw43 = "=0.7.0"
cyw43-pio = "=0.10.0"
defmt-rtt = "=1.3.1"
embassy-embedded-hal = "=0.6.0"
embassy-executor = { version = "=0.9.1", features = ["arch-std", "executor-thread"] }
embassy-net = { version = "=0.9.1", features = ["tcp", "dns", "dhcpv4", "proto-ipv4", "medium-ethernet"] }
embassy-rp = { version = "=0.10.0", features = ["rp235xa", "time-driver", "critical-section-impl", "binary-info"] }
embassy-sync = "=0.8.0"
embassy-time = "=0.5.1"
embassy-usb-logger = "=0.6.0"
embedded-graphics = "=0.8.1"
fixed = "=1.31.0"
heapless = { version = "=0.9.3", features = ["serde"] }
log = "=0.4.34"
panic-probe = "=1.0.0"
reqwless = "=0.14.0"
serde = { version = "=1.0.229", default-features = false, features = ["derive"] }
serde-json-core = "=0.7.0"
ssd1306 = { version = "=0.10.0", features = ["async"] }
static_cell = "=2.1.1"
