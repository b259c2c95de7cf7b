[package]
name = "high_flow_next"
version = "0.1.0"
edition = "2021"
publish = false

[dependencies]
arrayvec = "0.7"
bitflags = "2"
color_space = "*"
thiserror = "*"

[dev-dependencies]
crc = "3"
