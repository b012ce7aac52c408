[package]
name = "posish"
version = "0.1.0"
edition = "2021"
publish = false

[dependencies]
linux-raw-sys = { version = "*", features = ["general", "errno"] }
libc = "0.2"
io-lifetimes = "*"
cstr = "0.2"
