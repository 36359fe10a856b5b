[package]
name = "statime-embassy-net"
version = "0.1.0"
edition = "2021"
publish = false

[dependencies]
statime = { version = "=0.4.0", default-features = false, features = ["std"] }
embassy-net = { version = "=0.9.1", features = ["udp", "proto-ipv4", "medium-ethernet", "multicast"] }
embassy-time = { version = "=0.5.1", features = ["std"] }
embassy-futures = "=0.1.2"
rand_core = "=0.6.4"
rand_xorshift = "=0.3.0"
defmt = "=1.2.0"
