[package]
name = "krusty_grab"
version = "0.1.0"
edition = "2021"
publish = false

[dependencies]
egui = "0.22"
chrono = "0.4"
