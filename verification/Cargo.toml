[package]
name = "t2fand"
version = "0.1.0"
edition = "2021"
publish = false

[dependencies]
arraydeque = "0.5"
glob = "0.3"
libc = "0.2"
nonempty = "*"
rust-ini = "*"
signal-hook = "0.3"
thiserror = "1"
