[package]
name = "owos_6502"
version = "0.1.0"
edition = "2021"
publish = false

[dependencies]
emulator_6502 = "=1.1.0"
