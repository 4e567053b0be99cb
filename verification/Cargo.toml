[package]
name = "servo_robot"
version = "0.1.0"
edition = "2021"
publish = false

[dependencies]
rand = "*"
flume = "*"
tokio = { version = "1", features = ["rt", "rt-multi-thread", "sync", "time", "macros"] }
serialport = { version = "4", default-features = false }
thiserror = "*"
log = "*"
bitflags = "2"
