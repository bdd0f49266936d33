[package]
name = "hazptr"
version = "0.1.0"
edition = "2021"
publish = false

[dependencies]
arrayvec = "0.7"
cfg-if = "1"
conquer-once = "0.3"
conquer-util = "0.3"
reclaim = "0.2"
