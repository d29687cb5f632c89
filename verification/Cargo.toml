[package]
name = "remote_client"
version = "0.1.0"
edition = "2021"
publish = false

[dependencies]
async-trait = "0.1"
bytes = "1"
cfg-if = "1"
crossbeam-queue = "0.3"
errno = "0.3"
lazy_static = "1"
libpulse-binding = "2"
libpulse-simple-binding = "2"
magnum-opus = "*"
rand = "0.8"
ringbuf = "0.3"
scrap = "*"
serde_json = "1"
sha2 = "0.10"
sodiumoxide = "0.2"
uuid = { version = "1", features = ["v4"] }
