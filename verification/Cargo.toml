[package]
name = "dbus_launch"
version = "0.2.0"
edition = "2021"
publish = false

[dependencies]
libc = "0.2"
tempfile = "3"
