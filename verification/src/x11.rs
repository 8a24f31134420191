//! The pixel logic of X11 root-window capture: row stride of a screen,
//! choice of the pixmap format, and conversion of `ZPixmap` image data.
use vstd::prelude::*;
use crate::pixels::{
    convert_row, convert_strided_rows, layout_bpp, push_converted_row, rows_fit, strided_rgba,
    RowLayout,
};
use crate::screenshot::Screenshot;

verus! {

/// Bytes per scan line of a `ZPixmap` image: `width * bits_per_pixel` bits
/// rounded up to a multiple of 32 bits.
pub open spec fn scanline_bytes(width: u16, bits_per_pixel: u8) -> nat {
    (((width * bits_per_pixel + 31) / 32) * 4) as nat
}

/// What capture needs to know of one X11 screen.
#[derive(Debug, Clone, Copy)]
pub struct ScreenInfo {
    /// The root window.
    pub root: u32,
    pub width: u16,
    pub height: u16,
    pub depth: u8,
    pub bits_per_pixel: u8,
    pub bytes_per_line: u32,
}

impl ScreenInfo {
    /// Describe a screen from its root window, size, depth and the bits per
    /// pixel of the pixmap format for that depth.
    pub fn new(root: u32, width: u16, height: u16, depth: u8, bits_per_pixel: u8) -> (s: ScreenInfo)
        ensures
            s.root == root,
            s.width == width,
            s.height == height,
            s.depth == depth,
            s.bits_per_pixel == bits_per_pixel,
            s.bytes_per_line == scanline_bytes(width, bits_per_pixel),
    {
        assert((width as int) * (bits_per_pixel as int) <= 65535 * 255) by (nonlinear_arith)
            requires
                width <= 65535int,
                bits_per_pixel <= 255int,
        ;
        let bits: u32 = (width as u32) * (bits_per_pixel as u32);
        let bytes_per_line: u32 = ((bits + 31) / 32) * 4;
        ScreenInfo { root, width, height, depth, bits_per_pixel, bytes_per_line }
    }

    /// The drawable that screen capture reads: the root window.
    pub fn root_drawable(&self) -> (w: u32)
        ensures
            w == self.root,
    {
        self.root
    }
}

/// The screen at zero-based `index`; `None` when there are not that many
/// screens.
pub fn screen_at(screens: &[ScreenInfo], index: usize) -> (r: Option<ScreenInfo>)
    ensures
        index < screens@.len() ==> r == Some(screens@[index as int]),
        index >= screens@.len() ==> r is None,
{
    if index < screens.len() {
        Some(screens[index])
    } else {
        None
    }
}

/// The bits per pixel of the first pixmap format, among `(depth,
/// bits_per_pixel)` pairs, whose depth is `depth`; `None` when there is none.
pub fn pixmap_bits_per_pixel(formats: &[(u8, u8)], depth: u8) -> (r: Option<u8>)
    ensures
        match r {
            Some(bpp) => exists|i: int|
                0 <= i < formats@.len() && formats@[i].0 == depth && formats@[i].1 == bpp && forall|
                    j: int,
                | 0 <= j < i ==> formats@[j].0 != depth,
            None => forall|i: int| 0 <= i < formats@.len() ==> formats@[i].0 != depth,
        },
{
    let n = formats.len();
    let mut i: usize = 0;
    while i < n
        invariant
            n == formats@.len(),
            i <= n,
            forall|j: int| 0 <= j < i ==> formats@[j].0 != depth,
        decreases n - i,
    {
        let (d, bpp) = formats[i];
        if d == depth {
            assert(formats@[i as int].0 == depth && formats@[i as int].1 == bpp);
            return Some(bpp);
        }
        i = i + 1;
    }
    None
}

/// Whether image data of this depth and pixel size is laid out as 32-bit
/// `[B, G, R, X]` pixels with no row padding.
pub open spec fn is_bgrx32(depth: u8, bits_per_pixel: u8) -> bool {
    24 <= depth <= 32 && bits_per_pixel == 32
}

/// Whether image data of this depth and pixel size is laid out as packed
/// 24-bit `[B, G, R]` pixels in padded rows.
pub open spec fn is_bgr24(depth: u8, bits_per_pixel: u8) -> bool {
    depth == 24 && bits_per_pixel == 24
}

/// Convert raw `ZPixmap` data from the X server into an RGBA8 screenshot.
///
/// 32-bit pixels (depth 24 to 32) are read as `[B, G, R, X]` from the whole
/// buffer; 24-bit pixels (depth 24) as `[B, G, R]` from rows of
/// `bytes_per_line` bytes. Any other visual gives `None`, as does 24-bit data
/// whose last row reaches past the buffer.
pub fn convert_to_rgba(
    raw: &[u8],
    width: u32,
    height: u32,
    depth: u8,
    bits_per_pixel: u8,
    bytes_per_line: u32,
) -> (r: Option<Screenshot>)
    requires
        is_bgrx32(depth, bits_per_pixel) ==> raw@.len() / 4 == width * height,
    ensures
        is_bgrx32(depth, bits_per_pixel) ==> (r matches Some(s) && s.spec_width() == width
            && s.spec_height() == height && s.spec_data() == convert_row(raw@, RowLayout::Bgrx4)),
        is_bgr24(depth, bits_per_pixel) ==> match r {
            Some(s) => rows_fit(raw@.len(), width as nat, height as nat, bytes_per_line as nat, 3)
                && s.spec_width() == width && s.spec_height() == height && s.spec_data()
                == strided_rgba(
                raw@,
                width as nat,
                height as nat,
                bytes_per_line as nat,
                RowLayout::Bgr3,
            ),
            None => !rows_fit(raw@.len(), width as nat, height as nat, bytes_per_line as nat, 3),
        },
        !is_bgrx32(depth, bits_per_pixel) && !is_bgr24(depth, bits_per_pixel) ==> r is None,
{
    if 24 <= depth && depth <= 32 && bits_per_pixel == 32 {
        let mut rgba: Vec<u8> = Vec::new();
        let npix: usize = raw.len() / 4;
        push_converted_row(&mut rgba, raw, 0, npix, RowLayout::Bgrx4);
        proof {
            assert(convert_row(raw@.subrange(0, (npix * 4) as int), RowLayout::Bgrx4) =~= convert_row(
                raw@,
                RowLayout::Bgrx4,
            ));
        }
        assert(rgba@ =~= convert_row(raw@, RowLayout::Bgrx4));
        Some(Screenshot::from_rgba(width, height, rgba))
    } else if depth == 24 && bits_per_pixel == 24 {
        match convert_strided_rows(raw, width, height, bytes_per_line, RowLayout::Bgr3) {
            Some(rgba) => Some(Screenshot::from_rgba(width, height, rgba)),
            None => None,
        }
    } else {
        None
    }
}

} // verus!
