[package]
name = "citro3d"
version = "0.1.0"
edition = "2021"
publish = false

[dependencies]
bitflags = "1.3.2"
bytemuck = { version = "1.10.0", features = ["extern_crate_std"] }
libc = "0.2"
pin_array = "0.1.2"
static_assertions = "1.1.0"
thiserror = "1"
