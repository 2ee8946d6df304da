[package]
name = "mio_serial"
version = "0.1.0"
edition = "2021"
publish = false

[dependencies]
mio = "0.6"
miow = "0.2"
winapi = "0.2"
kernel32-sys = "0.2"
serialport = "1"
