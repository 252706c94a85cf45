[package]
name = "gpx_loader"
version = "0.1.0"
edition = "2021"
publish = false

[dependencies]
clap = { version = "=4.6.7", features = ["derive"] }
geoutils = "=0.5.1"
gpx = "=0.10.0"
greptimedb-ingester = { version = "=0.19.0", features = ["tls-ring"] }
nu-ansi-term = "=0.50.3"
time = "=0.3.55"
tokio = { version = "=1.53.2", features = ["macros", "rt-multi-thread"] }
