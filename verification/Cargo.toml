[package]
name = "card_linker"
version = "0.1.0"
edition = "2021"
publish = false

[dependencies]
tokio = { version = "=1.54.1", features = ["sync", "rt", "rt-multi-thread", "macros", "time"] }
pollster = "=1.0.1"
rqrr = "=0.11.0"
image = { version = "=0.25.10", default-features = false }
url = "=2.5.8"
reqwest = { version = "=0.13.5", default-features = false }
serde = { version = "=1.0.229", features = ["derive"] }
serde_json = "=1.0.154"
chrono = { version = "=0.4.45", default-features = false, features = ["std", "serde"] }
pcsc = "=2.9.0"
env_logger = { version = "=0.11.11", default-features = false }
eframe = { version = "0.33", default-features = false, features = ["glow", "default_fonts", "x11"] }
egui_extras = { version = "0.33", default-features = false, features = ["image"] }
catppuccin-egui = { version = "=5.7.0", default-features = false, features = ["egui33"] }
nokhwa = { version = "=0.10.11", features = ["input-native"] }
dcv-color-primitives = "=1.0.0"

[dev-dependencies]
qrcode = { version = "=0.14.1", default-features = false }
