[package]
name = "badge_layout"
version = "0.1.0"
edition = "2021"
publish = false

[dependencies]
qrcodegen-no-heap = "*"
embedded-graphics = "*"
u8g2-fonts = "*"
uc8151 = "*"
pimoroni_badger2040 = "*"
embedded-hal = "*"
embedded-hal-bus = "*"
