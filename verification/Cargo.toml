[package]
name = "joycon2click"
version = "0.1.0"
edition = "2021"
publish = false

[dependencies]
clap = { version = "*", features = ["derive"] }
evdev = "*"
kobject-uevent = "*"
landlock = "*"
netlink-sys = "*"
nix = { version = "*", features = ["user", "process"] }
seccompiler = "*"
