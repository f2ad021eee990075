[package]
name = "dvb_tune"
version = "0.1.0"
edition = "2021"
publish = false

[dependencies]
clap = "2"
dvbv5 = "*"
dvbv5-sys = "*"
libc = "0.2"
