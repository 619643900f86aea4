[package]
name = "titan_core"
version = "0.1.0"
edition = "2021"
publish = false

[dependencies]
ash = "=0.32.1"
ash-window = "=0.6.0"
vulkano = "=0.25.0"
vulkano-win = "=0.25.0"
winit = "=0.25.0"
egui = "=0.14.2"
palette = "=0.6.1"
ultraviolet = "=0.8.1"
glam = "=0.17.3"
image = "=0.23.14"
log = "=0.4.35"
pretty_env_logger = "=0.4.0"
semver = "=1.0.28"
thiserror = "=1.0.69"
lazy_static = "=1.5.1"
owning_ref = "=0.4.1"
c_str_macro = "=1.0.3"
slotmap = "=1.1.1"
syn = "=1.0.109"
quote = "=1.0.47"
proc-macro2 = "=1.0.107"
