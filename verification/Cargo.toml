[package]
name = "stem_magnet"
version = "0.1.0"
edition = "2021"
publish = false

[dependencies]
planar_geo = "0.5"
stem_material = { version = "=0.4.1", features = ["serde"] }
compare_variables = "0.2"
dyn-clone = "=1.0.20"
serde = { version = "=1.0.229", features = ["derive", "rc"] }
serde_mosaic = "=0.3.0"
typetag = "=0.2.23"
deserialize_untagged_verbose_error = "=0.1.8"
