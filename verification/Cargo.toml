[package]
name = "ens160_aq"
version = "0.1.0"
edition = "2021"
publish = false

[dependencies]
embedded-hal = "1.0"
embedded-hal-async = "1.0"
libm = "0.2"
log = "0.4"
