[package]
name = "winit_softbuffer_bar"
version = "0.1.0"
edition = "2021"
publish = false

[dependencies]
anyhow = "1"
bytemuck = { version = "1", features = ["extern_crate_alloc"] }
cairo-rs = "0.20"
libc = "0.2"
log = "0.4"
pango = "0.20"
softbuffer = "0.4"
winit = "0.30"
