//! The pixel logic of GPU texture readback: row alignment of the staging
//! buffer, which texture formats can be read, and removal of row padding.
use vstd::prelude::*;
use crate::pixels::{convert_strided_rows, rows_fit, strided_rgba, RowLayout};
use crate::screenshot::Screenshot;

verus! {

/// Row pitch alignment that texture-to-buffer copies require, in bytes
/// (wgpu's `COPY_BYTES_PER_ROW_ALIGNMENT`).
pub const COPY_BYTES_PER_ROW_ALIGNMENT: u32 = 256;

/// `width * 4` rounded up to the next multiple of the row alignment.
pub open spec fn padded_row_bytes(width: u32) -> int {
    ((width * 4 + 255) / 256) * 256
}

/// Round `width * 4` (bytes per row in RGBA8) up to the next multiple of
/// [`COPY_BYTES_PER_ROW_ALIGNMENT`] (256 bytes).
pub fn padded_bytes_per_row(width: u32) -> (n: u32)
    requires
        width * 4 + 255 <= u32::MAX,
    ensures
        n == padded_row_bytes(width),
        n % COPY_BYTES_PER_ROW_ALIGNMENT == 0,
        width * 4 <= n < width * 4 + COPY_BYTES_PER_ROW_ALIGNMENT,
{
    let unpadded: u32 = width * 4;
    let align: u32 = COPY_BYTES_PER_ROW_ALIGNMENT;
    assert(align == 256);
    ((unpadded + (align - 1)) / align) * align
}

/// The texture formats of interest to readback.
#[derive(Debug, Clone, Copy, PartialEq, Eq, Structural)]
pub enum TextureFormat {
    Rgba8Unorm,
    Rgba8UnormSrgb,
    Bgra8Unorm,
    Bgra8UnormSrgb,
    /// Any other format.
    Other,
}

/// Whether the channels of a readable format must be reordered from BGRA;
/// `None` for formats that readback does not support.
pub open spec fn bgra_swap(format: TextureFormat) -> Option<bool> {
    match format {
        TextureFormat::Rgba8Unorm | TextureFormat::Rgba8UnormSrgb => Some(false),
        TextureFormat::Bgra8Unorm | TextureFormat::Bgra8UnormSrgb => Some(true),
        TextureFormat::Other => None,
    }
}

/// Whether the channels must be swapped (BGRA to RGBA) for `format`, or
/// `None` when the format is not supported.
pub fn needs_bgra_swap(format: TextureFormat) -> (r: Option<bool>)
    ensures
        r == bgra_swap(format),
{
    match format {
        TextureFormat::Rgba8Unorm | TextureFormat::Rgba8UnormSrgb => Some(false),
        TextureFormat::Bgra8Unorm | TextureFormat::Bgra8UnormSrgb => Some(true),
        TextureFormat::Other => None,
    }
}

/// Size in bytes of the staging buffer: `bytes_per_row * height`.
pub fn staging_buffer_size(bytes_per_row: u32, height: u32) -> (n: u64)
    ensures
        n == bytes_per_row * height,
{
    assert((bytes_per_row as int) * (height as int) <= 0xFFFF_FFFE_0000_0001int) by (nonlinear_arith)
        requires
            bytes_per_row <= 0xFFFF_FFFFint,
            height <= 0xFFFF_FFFFint,
    ;
    (bytes_per_row as u64) * (height as u64)
}

/// Strip the row padding from mapped staging-buffer bytes, and reorder
/// BGRA to RGBA when `is_bgra`, giving the texture as a screenshot.
///
/// Every row of `width * 4` bytes, starting every `bytes_per_row` bytes,
/// must lie inside `raw`.
pub fn strip_row_padding(raw: &[u8], width: u32, height: u32, bytes_per_row: u32, is_bgra: bool) -> (s:
    Screenshot)
    requires
        rows_fit(raw@.len(), width as nat, height as nat, bytes_per_row as nat, 4),
    ensures
        s.spec_width() == width,
        s.spec_height() == height,
        s.spec_data() == strided_rgba(
            raw@,
            width as nat,
            height as nat,
            bytes_per_row as nat,
            if is_bgra {
                RowLayout::Bgra4
            } else {
                RowLayout::Rgba4
            },
        ),
{
    let layout = if is_bgra {
        RowLayout::Bgra4
    } else {
        RowLayout::Rgba4
    };
    let rgba = convert_strided_rows(raw, width, height, bytes_per_row, layout).unwrap();
    Screenshot::from_rgba(width, height, rgba)
}

} // verus!
