[package]
name = "chess_core"
version = "0.1.0"
edition = "2021"
publish = false

[dependencies]
rand = "=0.8.8"
shakmaty = "=0.26.0"
uuid = { version = "=1.29.0", features = ["v4"] }
tokio = { version = "=1.54.1", features = ["sync", "time", "rt", "macros"] }
serde = { version = "=1.0.229", features = ["derive"] }
rocket = { version = "=0.5.2", features = ["json", "secrets"] }
rocket_dyn_templates = { version = "=0.2.0", features = ["handlebars"] }
rusqlite = "=0.40.2"
