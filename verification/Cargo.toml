[package]
name = "esp_fan"
version = "0.1.0"
edition = "2021"
publish = false

[dependencies]
defmt = "=1.2.0"
embassy-executor = "=0.10.0"
embassy-net = { version = "=0.9.1", features = ["dhcpv4", "tcp", "medium-ethernet", "proto-ipv4"] }
embassy-sync = "=0.8.0"
embassy-time = "=0.5.1"
esp-alloc = "=0.11.0"
esp-bootloader-esp-idf = "=0.6.0"
esp-hal = "=1.1.2"
esp-radio = "=0.18.0"
esp-rtos = "=0.3.0"
heapless = "=0.9.3"
libm = "=0.2.16"
nanofish = { version = "=0.14.1", features = ["embassy"] }
panic-rtt-target = "=0.2.0"
portable-atomic = { version = "=1.15.0", features = ["float"] }
rtt-target = { version = "=0.6.2", features = ["defmt"] }
static_cell = "=2.1.1"
