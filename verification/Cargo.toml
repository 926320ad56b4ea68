[package]
name = "smbios_core"
version = "0.1.0"
edition = "2021"
publish = false

[dependencies]
dmidecode = "*"
CoreFoundation-sys = "*"
IOKit-sys = "*"
mach = "*"
scopeguard = "*"
