[package]
name = "bevy_oxr"
version = "0.1.0"
edition = "2021"
publish = false

[dependencies]
openxr = "0.19"
ash = "0.37"
winapi = { version = "0.3", features = ["dxgiformat", "d3dcommon", "d3d12"] }
