[package]
name = "dotview"
version = "0.1.0"
edition = "2021"
publish = false

[dependencies]
graphviz-rust = "*"
eframe = { version = "*", default-features = false, features = ["glow", "x11"] }
egui_extras = { version = "*", default-features = false, features = ["image"] }
reqwest = { version = "*", default-features = false }
tokio = { version = "*", default-features = false, features = ["rt-multi-thread", "time"] }
anyhow = "*"
tracing = "*"
tracing-subscriber = { version = "*", features = ["env-filter"] }
