[package]
name = "terminal_raymarcher"
version = "0.1.0"
edition = "2021"
publish = false

[dependencies]
vecmath = "=1.0.0"
crossterm = "=0.14.2"
rustc_apfloat = "0.2"
libm = "0.2"
bytemuck = "1"
