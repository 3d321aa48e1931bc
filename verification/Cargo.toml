[package]
name = "fetch_slot"
version = "0.1.0"
edition = "2021"
publish = false

[dependencies]
reqwest-cross = { version = "=0.14.0", features = ["cookies"] }
chrono = { version = "=0.4.45", default-features = false, features = ["std"] }
anyhow = "=1.0.104"
serde = { version = "=1.0.229", features = ["derive"] }
serde_json = "1"
egui = { version = "=0.37.0", default-features = false }
eframe = { version = "=0.37.0", default-features = false, features = ["glow", "persistence", "default_fonts"] }
actix-web = { version = "=4.18.1", default-features = false, features = ["cookies", "macros"] }
actix-cors = "*"
actix-files = "*"
tracing = "=0.1.44"
tracing-actix-web = "*"
tracing-subscriber = { version = "0.3", features = ["env-filter"] }
thiserror = "*"
log = "0.4"
tokio = { version = "1", features = ["macros", "rt-multi-thread"] }
