[package]
name = "sensor_node"
version = "0.1.0"
edition = "2021"
publish = false

[dependencies]
cyw43 = "=0.7.0"
cyw43-pio = "=0.10.0"
defmt = "=1.2.0"
defmt-rtt = "=1.3.1"
embassy-executor = { version = "=0.9.1", features = ["arch-std", "executor-thread"] }
embassy-net = { version = "=0.9.1", features = ["tcp", "proto-ipv4", "medium-ethernet"] }
embassy-rp = { version = "=0.10.0", features = ["rp2040", "time-driver", "critical-section-impl"] }
embassy-time = "=0.5.1"
embedded-io-async = "=0.7.0"
heapless = "=0.9.3"
panic-probe = { version = "=1.0.0", features = ["print-defmt"] }
picoserve = { version = "=0.20.1", features = ["embassy"] }
rand = { version = "=0.8.8", default-features = false }
static_cell = "*"
