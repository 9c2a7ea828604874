[package]
name = "snote2"
version = "0.1.0"
edition = "2021"
publish = false

[dependencies]
chumsky = "0.8"
config = "0.13"
dirs = "4"
eframe = "0.18"
egui = "0.18"
rfd = "0.8"
shellexpand = "2.1"
chrono = "0.4"
