[package]
name = "otp_backup"
version = "0.1.0"
edition = "2021"
publish = false

[dependencies]
otpauth = "*"
percent-encoding = "*"
prettytable-rs = "*"
structopt = "*"
dialoguer = "*"
clipboard = "*"
