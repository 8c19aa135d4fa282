[package]
name = "netboot"
version = "0.1.0"
edition = "2021"
publish = false

[dependencies]
defmt = "*"
edge-http = "*"
edge-nal = "*"
edge-nal-embassy = "*"
embassy-executor = "*"
embedded-io = "*"
enumset = "*"
esp-wifi = "*"
