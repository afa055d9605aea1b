[package]
name = "voxel"
version = "0.1.0"
edition = "2021"
publish = false

[dependencies]
anyhow = "*"
gstreamer = "*"
gtk4 = "*"
libadwaita = "*"
