[package]
name = "panel_grid"
version = "0.1.0"
edition = "2021"
publish = false

[dependencies]
glib = "*"
gtk4 = "*"
gtk4-layer-shell = "*"
serde = { version = "*", features = ["derive"] }
serde_json = "*"
