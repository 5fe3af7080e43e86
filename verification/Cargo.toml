[package]
name = "vcard_qr"
version = "0.1.0"
edition = "2021"
publish = false

[dependencies]
qrcode-generator = { version = "=5.0.0", features = ["image"] }
image = { version = "=0.25.10", default-features = false, features = ["png"] }
eframe = { version = "=0.29.1", default-features = false, features = ["default_fonts", "glow", "x11"] }
egui_extras = { version = "=0.29.1", default-features = false, features = ["image"] }
env_logger = "=0.11.11"

[dev-dependencies]
rqrr = { version = "*", default-features = false }
