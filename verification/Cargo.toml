[package]
name = "laserlogin"
version = "0.1.0"
edition = "2021"
publish = false

[dependencies]
rusqlite = { version = "=0.41.1", features = ["bundled"] }
smallvec = "=1.16.4"
uuid = { version = "=1.29.0", features = ["v4"] }
rand = "=0.8.8"
once_cell = "=1.21.4"
chrono = "=0.4.45"
serde = { version = "=1.0.229", features = ["derive"] }
serde_derive = "=1.0.229"
serde_json = "=1.0.154"
simple-error = "=0.3.3"
rocket = { version = "=0.5.2", features = ["json", "secrets"] }
rocket_dyn_templates = { version = "*", features = ["handlebars"] }
reqwest = { version = "0.12", default-features = false, features = ["rustls-tls"] }
