[package]
name = "bloombuild"
version = "0.1.0"
edition = "2021"
publish = false

[dependencies]
bloomfilter = "=1.0.16"
hex = "=0.4.3"
linecount = "=0.1.0"
ring = "=0.17.14"

[dev-dependencies]
serde_json = "1"
