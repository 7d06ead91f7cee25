[package]
name = "motion_core"
version = "0.1.0"
edition = "2021"
publish = false

[dependencies]
libm = "*"
uom = "*"
vex-rt = "*"
