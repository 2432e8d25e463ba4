[package]
name = "rp2040_clocks"
version = "0.1.0"
edition = "2021"
publish = false

[dependencies]
cortex-m-rt = "*"
defmt = "*"
defmt-rtt = "*"
panic-probe = { version = "*", features = ["print-defmt"] }
rp2040-boot2 = "*"
