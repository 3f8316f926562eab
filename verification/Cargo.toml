[package]
name = "azalea_inventory_logic"
version = "0.1.0"
edition = "2021"
publish = false

[dependencies]
indexmap = "2"
thiserror = "2"
azalea-registry = "*"
azalea-buf = "*"
azalea-inventory-macros = "*"
