[package]
name = "alarm_relay"
version = "0.1.0"
edition = "2021"
publish = false

[dependencies]
async-trait = "0.1"
chrono = "0.4"
colored = "*"
encoding_rs = "0.8"
fern = "*"
flume = "*"
imap = "3.0.0-alpha.15"
log = "0.4"
mailparse = "*"
quoted_printable = "*"
regex = "1"
reqwest = { version = "0.12", default-features = false, features = ["json", "rustls-tls"] }
scraper = "*"
serde = { version = "1", features = ["derive"] }
serde_derive = "1"
serde_json = "1"
serialport = { version = "4", default-features = false }
tokio = { version = "1", features = ["full"] }
twox-hash = "*"
urlencoding = "2"
