[package]
name = "picow_heartbeat"
version = "0.1.0"
edition = "2021"
publish = false

[dependencies]
heapless = "=0.8.0"
embassy-executor = { version = "=0.5.1", features = ["arch-std", "executor-thread", "defmt", "integrated-timers"] }
embassy-time = { version = "=0.3.2", features = ["defmt"] }
embassy-rp = { version = "=0.1.0", features = ["defmt", "unstable-pac", "time-driver"] }
embassy-net = { version = "=0.4.0", features = ["defmt", "udp", "dhcpv4", "dhcpv4-hostname", "dns", "medium-ethernet", "proto-ipv4"] }
cyw43 = { version = "=0.1.0", features = ["defmt"] }
cyw43-pio = "=0.1.0"
defmt = "=0.3.101"
defmt-rtt = "=0.4.2"
cortex-m-rt = "=0.7.7"
panic-probe = { version = "=0.3.2", features = ["print-defmt"] }
static_cell = "=2.1.1"
rand_core = "=0.6.4"
