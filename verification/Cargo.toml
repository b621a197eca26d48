[package]
name = "silicium"
version = "0.1.0"
edition = "2021"
publish = false

[dependencies]
arrayvec = { version = "0.7", default-features = false }
bitflags = "2"
spin = "0.9"
lock_api = "0.4"
log = "0.4"
limine = "0.5"
zerocopy = "0.7"
bitfield = "0.14"
static_assertions = "1"
cfg-if = "1"
futures = { version = "0.3", default-features = false, features = ["alloc"] }
crossbeam = { version = "0.8", default-features = false, features = ["alloc"] }
pc-keyboard = "0.7"
embedded-graphics = "0.8"
async-task = { version = "4", default-features = false }
