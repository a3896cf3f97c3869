[package]
name = "orbital_movement_gdextension"
version = "0.1.0"
edition = "2021"
publish = false

[dependencies]
thiserror = "*"
godot = "*"
