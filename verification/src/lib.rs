//! Core screenshot types: an RGBA8 `Screenshot`, PPM/PGM/PNG encoding,
//! pixel-format conversion for the window-system and GPU back ends, and the
//! capture traits that back ends implement.

pub mod format;
pub mod text;
pub mod png_codec;
pub mod base64_codec;
pub mod screenshot;
pub mod capture;
pub mod pixels;
pub mod minifb;
pub mod softbuffer;
pub mod winit;
pub mod x11;
pub mod wayland;
pub mod gpu;
pub mod paths;
pub mod uri;
pub mod portal;
pub mod desktop;
pub mod mcp;
