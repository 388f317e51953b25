[package]
name = "diskomator"
version = "0.1.0"
edition = "2021"
publish = false

[dependencies]
sha2 = "0.10"
heapless = "0.7"
postcard = "1"
serde = { version = "1", features = ["derive"] }
trouble-host = "*"
log = "0.4"
anyhow = { version = "1", default-features = false }
libm = "0.2"
microfft = "*"
smart-leds = "*"
embassy-sync = "*"
embassy-futures = "*"
embassy-time = "*"
static_cell = "*"
rand_core = "0.6"
