[package]
name = "toa"
version = "0.1.0"
edition = "2021"
publish = false

[dependencies]
clap = "2"
ctrlc = "3"
regex = "1"
socket2 = "0.3"
walkdir = "2"
