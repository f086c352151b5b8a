[package]
name = "day_toolkits"
version = "0.1.0"
edition = "2021"
publish = false

[dependencies]
log = "0.4"
linkme = "0.3"
getrandom = "0.3"
gtk4 = { version = "0.9", features = ["v4_10"] }
libadwaita = { version = "0.7", features = ["v1_5"] }
pangocairo = "0.20"
