[package]
name = "xstatistics"
version = "0.1.0"
edition = "2021"
publish = false

[dependencies]
rand = "0.9"
reqwest = { version = "0.12", default-features = false, features = ["json"] }
tokio = { version = "1", features = ["rt-multi-thread", "sync", "macros"] }
crossbeam = "0.8"
serde = { version = "1", features = ["derive"] }
toml = "0.8"
thiserror = "2"
strum = { version = "0.27", features = ["derive"] }
strum_macros = "0.27"
log = "0.4"
fern = "0.7"
chrono = { version = "0.4", default-features = false, features = ["clock"] }
o2o = "0.5"
semver = "1"
opener = "0.7"
egui = "0.31"
eframe = { version = "0.31", default-features = false, features = ["glow", "default_fonts", "x11"] }
egui-phosphor = "0.9"
