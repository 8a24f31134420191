//! Conversion of packed 32-bit pixels (XRGB8888 / ARGB8888, as window
//! libraries store them) into RGBA8 bytes.
use vstd::prelude::*;
use crate::text::{decimal, push_decimal};

verus! {

/// Byte `c` (0 = red, 1 = green, 2 = blue, 3 = alpha) of the RGBA8 form of
/// the packed pixel `p`; the alpha byte is `p`'s high byte when
/// `keep_alpha`, else 255.
pub open spec fn packed_channel(p: u32, c: int, keep_alpha: bool) -> u8 {
    if c == 0 {
        ((p >> 16u32) & 0xFFu32) as u8
    } else if c == 1 {
        ((p >> 8u32) & 0xFFu32) as u8
    } else if c == 2 {
        (p & 0xFFu32) as u8
    } else if keep_alpha {
        ((p >> 24u32) & 0xFFu32) as u8
    } else {
        255u8
    }
}

/// The RGBA8 bytes of a buffer of packed pixels.
pub open spec fn rgba_of_packed(pixels: Seq<u32>, keep_alpha: bool) -> Seq<u8> {
    Seq::new(pixels.len() * 4, |i: int| packed_channel(pixels[i / 4], i % 4, keep_alpha))
}

/// Convert packed pixels into RGBA8 bytes, four bytes per pixel.
pub fn rgba_from_packed(pixels: &[u32], keep_alpha: bool) -> (rgba: Vec<u8>)
    ensures
        rgba@ == rgba_of_packed(pixels@, keep_alpha),
{
    let n = pixels.len();
    let mut rgba: Vec<u8> = Vec::new();
    let mut k: usize = 0;
    while k < n
        invariant
            n == pixels@.len(),
            k <= n,
            rgba@.len() == 4 * k,
            forall|i: int|
                0 <= i < 4 * k ==> rgba@[i] == packed_channel(pixels@[i / 4], i % 4, keep_alpha),
        decreases n - k,
    {
        let p = pixels[k];
        let r = ((p >> 16u32) & 0xFFu32) as u8;
        let g = ((p >> 8u32) & 0xFFu32) as u8;
        let b = (p & 0xFFu32) as u8;
        let a = if keep_alpha {
            ((p >> 24u32) & 0xFFu32) as u8
        } else {
            255u8
        };
        rgba.push(r);
        rgba.push(g);
        rgba.push(b);
        rgba.push(a);
        k = k + 1;
    }
    assert(rgba@ =~= rgba_of_packed(pixels@, keep_alpha));
    rgba
}

/// `dimension mismatch: expected <e> pixels, got <a>`.
pub open spec fn mismatch_text(expected: nat, actual: nat) -> Seq<char> {
    "dimension mismatch: expected "@ + decimal(expected) + " pixels, got "@ + decimal(actual)
}

/// The description of a pixel-count mismatch.
pub fn mismatch_message(expected: usize, actual: usize) -> (s: String)
    ensures
        s@ == mismatch_text(expected as nat, actual as nat),
{
    let mut s = String::from_str("dimension mismatch: expected ");
    push_decimal(&mut s, expected as u64);
    s.append(" pixels, got ");
    push_decimal(&mut s, actual as u64);
    s
}

} // verus!

verus! {

/// How the pixels of one row of a raw image are stored.
#[derive(Debug, Clone, Copy, PartialEq, Eq, Structural)]
pub enum RowLayout {
    /// Three bytes per pixel, `[B, G, R]`; alpha becomes 255.
    Bgr3,
    /// Four bytes per pixel, `[B, G, R, X]`; the fourth byte is ignored and
    /// alpha becomes 255.
    Bgrx4,
    /// Four bytes per pixel, `[B, G, R, A]`.
    Bgra4,
    /// Four bytes per pixel, `[R, G, B, A]`, copied as they are.
    Rgba4,
}

/// Bytes per stored pixel of a row layout.
pub open spec fn layout_bpp(layout: RowLayout) -> nat {
    match layout {
        RowLayout::Bgr3 => 3,
        _ => 4,
    }
}

/// Byte `c` (0..4) of the RGBA8 form of stored pixel `p` of `row`.
pub open spec fn row_channel(row: Seq<u8>, layout: RowLayout, p: int, c: int) -> u8 {
    match layout {
        RowLayout::Bgr3 => if c == 3 {
            255u8
        } else {
            row[p * 3 + 2 - c]
        },
        RowLayout::Bgrx4 => if c == 3 {
            255u8
        } else {
            row[p * 4 + 2 - c]
        },
        RowLayout::Bgra4 => if c == 3 {
            row[p * 4 + 3]
        } else {
            row[p * 4 + 2 - c]
        },
        RowLayout::Rgba4 => row[p * 4 + c],
    }
}

/// The RGBA8 bytes of the whole pixels stored in `row` (trailing bytes
/// that do not make a whole pixel are ignored).
pub open spec fn convert_row(row: Seq<u8>, layout: RowLayout) -> Seq<u8> {
    Seq::new(
        (row.len() / layout_bpp(layout)) * 4,
        |i: int| row_channel(row, layout, i / 4, i % 4),
    )
}

/// The bytes of row `r` of an image whose rows start every `stride` bytes
/// and hold `row_len` bytes of pixels.
pub open spec fn row_of(raw: Seq<u8>, r: int, stride: int, row_len: int) -> Seq<u8> {
    raw.subrange(r * stride, r * stride + row_len)
}

/// The RGBA8 bytes of `height` rows of `width` pixels, row `r` stored at
/// byte `r * stride` of `raw`; the padding after each row is dropped.
pub open spec fn strided_rgba(
    raw: Seq<u8>,
    width: nat,
    height: nat,
    stride: nat,
    layout: RowLayout,
) -> Seq<u8> {
    converted_rows(raw, width, height, stride, layout).flatten()
}

/// The RGBA8 bytes of each of the first `n` rows, one sequence per row.
pub open spec fn converted_rows(
    raw: Seq<u8>,
    width: nat,
    n: nat,
    stride: nat,
    layout: RowLayout,
) -> Seq<Seq<u8>> {
    Seq::new(
        n,
        |r: int| convert_row(row_of(raw, r, stride as int, (width * layout_bpp(layout)) as int), layout),
    )
}

/// Whether every one of the `height` rows lies inside `raw`.
pub open spec fn rows_fit(raw_len: nat, width: nat, height: nat, stride: nat, bpp: nat) -> bool {
    height == 0 || (height - 1) * stride + width * bpp <= raw_len
}

/// Append the RGBA8 form of the `npix` pixels stored from byte `start` of
/// `raw`.
pub fn push_converted_row(
    out: &mut Vec<u8>,
    raw: &[u8],
    start: usize,
    npix: usize,
    layout: RowLayout,
)
    requires
        start + npix * layout_bpp(layout) <= raw@.len(),
    ensures
        final(out)@ == old(out)@ + convert_row(
            raw@.subrange(start as int, start + npix * layout_bpp(layout)),
            layout,
        ),
        final(out)@.len() == old(out)@.len() + npix * 4,
{
    let ghost row = raw@.subrange(start as int, start + npix * layout_bpp(layout));
    let ghost base_len = out@.len();
    let bpp: usize = match layout {
        RowLayout::Bgr3 => 3,
        _ => 4,
    };
    assert(row.len() / layout_bpp(layout) == npix) by (nonlinear_arith)
        requires
            row.len() == npix * layout_bpp(layout),
            layout_bpp(layout) == 3 || layout_bpp(layout) == 4,
    ;
    let rl: usize = raw.len();
    let mut k: usize = 0;
    while k < npix
        invariant
            rl == raw@.len(),
            bpp == layout_bpp(layout),
            start + npix * bpp <= raw@.len(),
            row == raw@.subrange(start as int, start + npix * bpp),
            row.len() / layout_bpp(layout) == npix,
            k <= npix,
            out@.len() == base_len + 4 * k,
            base_len == old(out)@.len(),
            forall|i: int| 0 <= i < base_len ==> out@[i] == old(out)@[i],
            forall|i: int|
                base_len <= i < base_len + 4 * k ==> #[trigger] out@[i] == row_channel(
                    row,
                    layout,
                    (i - base_len) / 4,
                    (i - base_len) % 4,
                ),
        decreases npix - k,
    {
        assert(start + k * bpp + bpp <= raw@.len()) by (nonlinear_arith)
            requires
                k < npix,
                start + npix * bpp <= raw@.len(),
        ;
        let at: usize = start + k * bpp;
        let ghost p = k as int;
        assert(row[p * (bpp as int)] == raw@[at as int]);
        assert(row[p * (bpp as int) + 1] == raw@[at + 1]);
        assert(row[p * (bpp as int) + 2] == raw@[at + 2]);
        match layout {
            RowLayout::Bgr3 => {
                out.push(raw[at + 2]);
                out.push(raw[at + 1]);
                out.push(raw[at]);
                out.push(255u8);
            },
            RowLayout::Bgrx4 => {
                out.push(raw[at + 2]);
                out.push(raw[at + 1]);
                out.push(raw[at]);
                out.push(255u8);
            },
            RowLayout::Bgra4 => {
                assert(row[p * 4 + 3] == raw@[at + 3]);
                out.push(raw[at + 2]);
                out.push(raw[at + 1]);
                out.push(raw[at]);
                out.push(raw[at + 3]);
            },
            RowLayout::Rgba4 => {
                assert(row[p * 4 + 3] == raw@[at + 3]);
                out.push(raw[at]);
                out.push(raw[at + 1]);
                out.push(raw[at + 2]);
                out.push(raw[at + 3]);
            },
        }
        k = k + 1;
    }
    assert(final(out)@ =~= old(out)@ + convert_row(row, layout));
}

} // verus!

verus! {

/// Convert `height` rows of `width` pixels, row `r` stored at byte
/// `r * stride` of `raw`, into RGBA8 bytes, dropping the padding after each
/// row. Gives `None` when a row reaches past the end of `raw`.
pub fn convert_strided_rows(raw: &[u8], width: u32, height: u32, stride: u32, layout: RowLayout) -> (r:
    Option<Vec<u8>>)
    ensures
        r is None <==> !rows_fit(
            raw@.len(),
            width as nat,
            height as nat,
            stride as nat,
            layout_bpp(layout),
        ),
        r matches Some(v) ==> v@ == strided_rgba(
            raw@,
            width as nat,
            height as nat,
            stride as nat,
            layout,
        ) && v@.len() == width * height * 4,
{
    let bpp: u64 = match layout {
        RowLayout::Bgr3 => 3,
        _ => 4,
    };
    assert((width as int) * (bpp as int) <= 0x4_0000_0000int) by (nonlinear_arith)
        requires
            width <= 0xFFFF_FFFFint,
            bpp <= 4,
    ;
    let row_len: u64 = (width as u64) * bpp;
    let rl: usize = raw.len();
    let rl64: u64 = rl as u64;
    let mut out: Vec<u8> = Vec::new();
    let mut r: u32 = 0;
    assert(out@ =~= converted_rows(raw@, width as nat, 0, stride as nat, layout).flatten());
    while r < height
        invariant
            rl == raw@.len(),
            rl64 == rl,
            bpp == layout_bpp(layout),
            row_len == width * bpp,
            row_len <= 0x4_0000_0000int,
            r <= height,
            r == 0 || (r - 1) * stride + row_len <= rl,
            out@ == converted_rows(raw@, width as nat, r as nat, stride as nat, layout).flatten(),
            out@.len() == r * (width * 4),
        decreases height - r,
    {
        assert((r as int) * (stride as int) <= 0xFFFF_FFFE_0000_0001int) by (nonlinear_arith)
            requires
                r <= 0xFFFF_FFFFint,
                stride <= 0xFFFF_FFFFint,
        ;
        let start: u64 = (r as u64) * (stride as u64);
        let end_opt = start.checked_add(row_len);
        if end_opt.is_none() || end_opt.unwrap() > rl64 {
            assert((height - 1) * stride >= r * stride) by (nonlinear_arith)
                requires
                    r <= height - 1,
            ;
            return None;
        }
        let ghost before = out@;
        push_converted_row(&mut out, raw, start as usize, width as usize, layout);
        proof {
            let ghost rows = converted_rows(raw@, width as nat, r as nat, stride as nat, layout);
            let ghost next = converted_rows(
                raw@,
                width as nat,
                (r + 1) as nat,
                stride as nat,
                layout,
            );
            assert(next =~= rows.push(next[r as int]));
            rows.lemma_flatten_push(next[r as int]);
        }
        assert((r as int) * (width * 4) + width * 4 == (r + 1) * (width * 4)) by (nonlinear_arith);
        r = r + 1;
    }
    assert(out@.len() == width * height * 4) by (nonlinear_arith)
        requires
            out@.len() == r * (width * 4),
            r == height,
    ;
    Some(out)
}

} // verus!

verus! {

/// When alpha is not kept, the high byte of a packed pixel has no effect.
pub proof fn lemma_high_byte_ignored(p: u32, q: u32, c: int)
    requires
        p & 0x00FF_FFFFu32 == q & 0x00FF_FFFFu32,
    ensures
        packed_channel(p, c, false) == packed_channel(q, c, false),
{
    assert((p & 0x00FF_FFFFu32 == q & 0x00FF_FFFFu32) ==> ((p >> 16u32) & 0xFFu32 == (q >> 16u32)
        & 0xFFu32 && (p >> 8u32) & 0xFFu32 == (q >> 8u32) & 0xFFu32 && p & 0xFFu32 == q & 0xFFu32))
        by (bit_vector);
}

/// The RGB bytes of a packed pixel sit in its low three bytes, whatever
/// the layout; only the alpha byte differs between the two layouts.
pub proof fn lemma_layouts_agree_on_color(p: u32, c: int)
    requires
        0 <= c < 3,
    ensures
        packed_channel(p, c, false) == packed_channel(p, c, true),
{
}

} // verus!

verus! {

/// Alpha of each converted pixel: the packed high byte when alpha is kept,
/// else 255.
pub proof fn lemma_packed_alpha(pixels: Seq<u32>, i: int)
    requires
        0 <= i < pixels.len(),
    ensures
        rgba_of_packed(pixels, false)[4 * i + 3] == 255,
        rgba_of_packed(pixels, true)[4 * i + 3] == ((pixels[i] >> 24u32) & 0xFFu32) as u8,
{
    assert((4 * i + 3) / 4 == i);
    assert((4 * i + 3) % 4 == 3);
}

} // verus!
