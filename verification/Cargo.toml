[package]
name = "flash_algo"
version = "0.1.0"
edition = "2021"
publish = false

[dependencies]
cc13x4_cc26x4_pac = { version = "=0.10.3", features = ["critical-section"] }
cortex-m = "=0.7.9"
flash-algorithm = { version = "=0.7.0", default-features = false, features = ["erase-chip"] }
rtt-target = "=0.6.2"
