[package]
name = "swim_editor"
version = "0.1.0"
edition = "2021"
publish = false

[dependencies]
num = "*"
pc-keyboard = "*"
pluggable_interrupt_os = "*"
