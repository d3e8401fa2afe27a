[package]
name = "pitchgrid_continuum"
version = "0.1.0"
edition = "2021"
publish = false

[dependencies]
midly = "*"
version-compare = "*"
rosc = "*"
midir = "*"
serde = { version = "1", features = ["derive"] }
serde_json = "1"
toml = "*"
ureq = "*"
directories = "*"
