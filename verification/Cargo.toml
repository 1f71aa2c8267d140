[package]
name = "rawspool"
version = "0.1.0"
edition = "2021"
publish = false

[dependencies]
widestring = "*"
winapi = { version = "*", features = ["winspool"] }
windows = { version = "*", features = ["Win32_Foundation", "Win32_Graphics_Printing"] }
