[package]
name = "process_syscalls"
version = "0.1.0"
edition = "2021"
publish = false

[dependencies]
linux-raw-sys = "0.0"
