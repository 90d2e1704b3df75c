[package]
name = "wake_event"
version = "0.1.0"
edition = "2021"
publish = false

[dependencies]
concurrent-queue = "*"
portable-atomic = "*"
parking = "*"
