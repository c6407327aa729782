[package]
name = "dosdbg"
version = "0.1.0"
edition = "2021"
publish = false

[dependencies]
gdbstub = "0.7"
gdbstub_arch = "0.3"
bitflags = "2"
struct_layout = "*"
rlibc = "1"
