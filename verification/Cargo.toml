[package]
name = "lorapipe"
version = "0.1.0"
edition = "2021"
publish = false

[dependencies]
hex = "0.4"
crossbeam-channel = "0.5"
log = "0.4"
simplelog = "0.12"
structopt = "0.3"
libc = "0.2"
serialport = { version = "3.3", default-features = false }
