[package]
name = "locate_dwarf"
version = "0.1.0"
edition = "2021"
publish = false

[dependencies]
anyhow = "*"
cfg-if = "*"
object = "*"
pdb = "*"
uuid = "*"
