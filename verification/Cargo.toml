[package]
name = "strecken_info_bot"
version = "0.1.0"
edition = "2021"
publish = false

[dependencies]
chrono = "0.4"
chrono-tz = "*"
html-escape = "0.2"
md5 = "*"
regex = "1"
serde = { version = "1", features = ["derive"] }
serde_json = "1"
tokio = { version = "1", features = ["full"] }
log = "0.4"
futures = "0.3"
thiserror = "*"
bb8 = "*"
bb8-postgres = "*"
tokio-postgres = { version = "0.7", features = ["with-chrono-0_4", "with-serde_json-1"] }
telexide = "*"
typemap_rev = "*"
megalodon = "*"
reqwest = "*"
tracing = "0.1"
strecken-info = "*"
