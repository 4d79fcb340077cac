[package]
name = "kbdlight"
version = "0.1.0"
edition = "2021"
publish = false

[dependencies]
dbus = "*"
evdev-rs = "*"
getopts = "*"
log = "*"
