[package]
name = "async_signal"
version = "0.1.0"
edition = "2021"
publish = false

[dependencies]
async-io = "*"
cfg-if = "*"
concurrent-queue = "*"
futures-core = "*"
libc = "*"
signal-hook-registry = "*"

[dev-dependencies]
signal-hook = "*"
