[package]
name = "ata_pio"
version = "0.1.0"
edition = "2021"
publish = false

[dependencies]
log = "0.4"
spin = "=0.9.9"
