[package]
name = "waycap_venc"
version = "0.1.0"
edition = "2021"
publish = false

[dependencies]
crossbeam = "*"
drm-fourcc = "*"
log = "*"
ffmpeg-next = "*"
pipewire = "*"
