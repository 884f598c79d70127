[package]
name = "tmtc_core"
version = "0.1.0"
edition = "2021"
publish = false

[dependencies]
cobs = "=0.5.1"
crc = "=3.4.0"
crossbeam-channel = "=0.5.17"
hashbrown = "=0.17.1"
heapless = "=0.9.3"
log = "=0.4.34"
thiserror = "=2.0.21"
