[package]
name = "snake_game"
version = "0.1.0"
edition = "2021"
publish = false

[dependencies]
cortex-m-rt = "0.7"
heapless = "0.7"
microbit-v2 = "0.12"
panic-rtt-target = { version = "=0.1.2", features = ["cortex-m"] }
rtt-target = { version = "=0.3.1", features = ["cortex-m"] }
