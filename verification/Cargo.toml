[package]
name = "holofoil"
version = "0.1.0"
edition = "2021"
publish = false

[dependencies]
bytemuck = "1"
bytes = "1"
wgpu = "27"
