[package]
name = "gnome_class"
version = "0.1.0"
edition = "2021"
publish = false

[dependencies]
quote = "0.3"
