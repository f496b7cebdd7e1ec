[package]
name = "il2_utils"
version = "0.1.0"
edition = "2021"
publish = false

[dependencies]
rand = "0.8"
zeroize = "1"
region = "3"
fd-lock = "3"
windows = { version = "0.48", features = ["Win32_Foundation", "Win32_Security_Cryptography", "Win32_System_Memory"] }
