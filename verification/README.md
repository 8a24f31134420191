# miniscreenshot

A screenshot library: an RGBA8 `Screenshot` type with PNG, PPM and PGM
encoding and downscaling, pixel-format conversion for window libraries
(minifb, softbuffer), X11, Wayland (wlr-screencopy), the XDG desktop portal
and GPU texture readback, the capture traits that back ends implement, and
the decisions of an MCP screenshot server.

Layout:

- `src/` is the library, each function with a proved contract.
  `png_codec.rs` and `base64_codec.rs` hold the trusted wrappers around
  the `png` and `base64` crates, whose contracts state what those crates
  do. `uri.rs` reads the local path out of the `file:` URI that the portal
  returns; `paths.rs` compares paths by whole components; `mcp.rs` judges
  an output path from what the file system answered and builds the inline
  image; `desktop.rs` holds the state of automatic capture.
- `app/` is the I/O around it: writing files, asking the file system, the
  X11, Wayland, portal and wgpu capture sessions, automatic desktop capture
  and the MCP screenshot server. It hands plain values to the library and
  takes its answers back.
- `tests/` exercises the library from outside.
