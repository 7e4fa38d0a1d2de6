[package]
name = "qayeq"
version = "0.1.0"
edition = "2021"
publish = false

[dependencies]
url = "2"
urlencoding = "2"
serde = { version = "1", features = ["derive"] }
serde_json = "1"
log = "0.4"
env_logger = "*"
directories = "*"
rusqlite = "*"
glib = "*"
gtk4 = "*"
libadwaita = "*"
webkit6 = "*"
soup3 = "*"
