[package]
name = "blackcurrant"
version = "0.1.0"
edition = "2021"
publish = false

[dependencies]
chrono = "=0.4.45"
uuid = { version = "=1.29.0", features = ["v4"] }
url = "=2.5.8"
csv = "1"
libsql-client = { version = "=0.33.4", default-features = false, features = ["hrana_backend", "reqwest_backend"] }
tokio = { version = "=1.54.1", features = ["rt-multi-thread", "sync"] }
rusqlite = { version = "=0.29.0", features = ["backup", "bundled"] }
tempfile = "=3.27.0"
serde = { version = "1", features = ["derive"] }
confy = "0.5"
eframe = { version = "=0.22.0", default-features = false, features = ["glow", "default_fonts"] }
egui = "=0.22.0"
egui_extras = "=0.22.0"
