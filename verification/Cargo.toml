[package]
name = "sid_device"
version = "0.1.0"
edition = "2021"
publish = false

[dependencies]
atomicring = "*"
rand = "0.8"
crossbeam-channel = "*"
parking_lot = "*"
cpal = "0.14"
thread-priority = "*"
hostname = "*"
os_info = "*"
async-broadcast = "*"
