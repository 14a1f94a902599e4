[package]
name = "wg-manager"
version = "0.1.0"
edition = "2021"
publish = false

[dependencies]
axum = "0.7"
axum-extra = { version = "0.9", features = ["cookie"] }
chrono = "0.4"
image = { version = "0.25", default-features = false, features = ["png"] }
ipnet = "2"
minijinja = "2"
nix = { version = "0.29", features = ["user", "fs"] }
pulldown-cmark = { version = "0.12", default-features = false, features = ["html"] }
qrcode = { version = "0.14", default-features = false, features = ["image"] }
rusqlite = { version = "0.32", features = ["bundled"] }
serde = { version = "1", features = ["derive"] }
serde_json = "1"
serde_yaml = "0.9"
tempfile = "3"
tokio = { version = "1", features = ["rt-multi-thread", "macros", "net", "sync"] }
tracing = "0.1"
tracing-subscriber = { version = "0.3", features = ["env-filter"] }
ureq = { version = "2", features = ["json"] }
