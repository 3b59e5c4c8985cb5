[package]
name = "qr_code_styling"
version = "0.1.0"
edition = "2021"
publish = false

[dependencies]
qrcode = "*"
base64 = "*"
image = "*"
resvg = "*"
svg2pdf = "*"
