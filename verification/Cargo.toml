[package]
name = "osm2pg"
version = "0.1.0"
edition = "2021"
publish = false

[dependencies]
clap = { version = "*", features = ["derive"] }
geo-types = "*"
log = "*"
osmpbf = "*"
postgres = { version = "*", features = ["with-serde_json-1"] }
serde_json = "*"
simple_logger = "*"
wkt = "*"
