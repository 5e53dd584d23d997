[package]
name = "libassist_sys"
version = "1.2.0"
edition = "2021"
publish = false

[dependencies]
librebound-sys = "*"
libc = "*"
thiserror = "*"
