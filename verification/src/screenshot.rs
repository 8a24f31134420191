//! The `Screenshot` type: RGBA8 pixels with their size, and its encoders.
use vstd::prelude::*;
use crate::format::ImageFormat;
use crate::png_codec::{
    png_decoder_default_limit, png_decoding, png_encode_rgba8, png_rgba8_encoding, png_signature,
};
use crate::text::{ascii_bytes, decimal, push_decimal_bytes, lemma_ascii_bytes_add};

verus! {

/// The RGBA8 bytes of pixels given as RGB8 triples, with full opacity.
pub open spec fn rgba_from_rgb(rgb: Seq<u8>) -> Seq<u8> {
    Seq::new(
        (rgb.len() / 3) * 4,
        |i: int|
            if i % 4 == 3 {
                255u8
            } else {
                rgb[(i / 4) * 3 + i % 4]
            },
    )
}

/// The RGB bytes of RGBA8 pixels: the alpha channel dropped.
pub open spec fn rgb_of_rgba(rgba: Seq<u8>) -> Seq<u8> {
    Seq::new((rgba.len() / 4) * 3, |i: int| rgba[(i / 3) * 4 + i % 3])
}

/// ITU-R BT.601 luma of one pixel, `0.299 R + 0.587 G + 0.114 B`, with the
/// fraction dropped.
pub open spec fn luma(r: u8, g: u8, b: u8) -> u8 {
    ((299 * r + 587 * g + 114 * b) / 1000) as u8
}

/// The luma of each RGBA8 pixel.
pub open spec fn gray_of_rgba(rgba: Seq<u8>) -> Seq<u8> {
    Seq::new(rgba.len() / 4, |i: int| luma(rgba[4 * i], rgba[4 * i + 1], rgba[4 * i + 2]))
}

/// The header of a binary portable-anymap file: `P<magic>\n<w> <h>\n255\n`.
pub open spec fn pnm_header(magic: char, width: u32, height: u32) -> Seq<u8> {
    ascii_bytes(
        seq!['P', magic, '\n'] + decimal(width as nat) + seq![' '] + decimal(height as nat) + seq![
            '\n',
            '2',
            '5',
            '5',
            '\n',
        ],
    )
}

/// A binary PPM (P6) file of the given size and RGBA8 pixels.
pub open spec fn ppm_file(width: u32, height: u32, rgba: Seq<u8>) -> Seq<u8> {
    pnm_header('6', width, height) + rgb_of_rgba(rgba)
}

/// A binary PGM (P5) file of the given size and RGBA8 pixels.
pub open spec fn pgm_file(width: u32, height: u32, rgba: Seq<u8>) -> Seq<u8> {
    pnm_header('5', width, height) + gray_of_rgba(rgba)
}

/// What PNG-encoding an image of this size and RGBA8 data gives: for a
/// zero width or height the encoder's refusal, else the PNG file, which
/// starts with the PNG signature and, whenever one row of it fits the
/// `png` decoder's default 64 MiB limit, decodes to an 8-bit RGBA frame
/// (color type 6) of the same size holding the same pixel bytes.
pub open spec fn png_outcome(width: u32, height: u32, data: Seq<u8>, r: Result<Vec<u8>, EncodeError>) -> bool {
    match r {
        Ok(bytes) => {
            &&& width != 0
            &&& height != 0
            &&& bytes@ == png_rgba8_encoding(width, height, data)
            &&& bytes@.len() >= 8
            &&& bytes@.take(8) == png_signature()
            &&& width * 4 <= png_decoder_default_limit() ==> png_decoding(bytes@) == Ok::<
                (u32, u32, u8, Seq<u8>),
                Seq<char>,
            >((width, height, 6u8, data))
        },
        Err(EncodeError::Png(m)) => (width == 0 && m@ == "Zero width not allowed"@) || (width != 0
            && height == 0 && m@ == "Zero height not allowed"@),
    }
}

/// An error that occurred while encoding a screenshot.
#[derive(Debug)]
pub enum EncodeError {
    /// The PNG encoder returned an error, with its text.
    Png(String),
}

impl EncodeError {
    /// The human-readable description: `PNG encoding error: <text>`.
    pub fn to_message(&self) -> (s: String)
        ensures
            match self {
                EncodeError::Png(m) => s@ == "PNG encoding error: "@ + m@,
            },
    {
        match self {
            EncodeError::Png(m) => {
                let mut s = String::from_str("PNG encoding error: ");
                s.append(m.as_str());
                s
            },
        }
    }
}

/// A captured screenshot backed by raw RGBA8 pixel data.
///
/// Pixels are stored in row-major order; each pixel is four consecutive bytes
/// `[R, G, B, A]`. The data always holds exactly `width * height` pixels.
#[derive(Debug)]
pub struct Screenshot {
    width: u32,
    height: u32,
    data: Vec<u8>,
}

impl Clone for Screenshot {
    fn clone(&self) -> (s: Self)
        ensures
            s.spec_width() == self.spec_width(),
            s.spec_height() == self.spec_height(),
            s.spec_data() == self.spec_data(),
    {
        proof {
            use_type_invariant(self);
        }
        let data = self.data.clone();
        assert(data@ =~= self.data@);
        Screenshot { width: self.width, height: self.height, data }
    }
}

impl Screenshot {
    #[verifier::type_invariant]
    closed spec fn well_formed(&self) -> bool {
        self.data@.len() == self.width * self.height * 4
    }

    /// Width in pixels.
    pub closed spec fn spec_width(&self) -> u32 {
        self.width
    }

    /// Height in pixels.
    pub closed spec fn spec_height(&self) -> u32 {
        self.height
    }

    /// The RGBA8 pixel bytes, row-major.
    pub closed spec fn spec_data(&self) -> Seq<u8> {
        self.data@
    }

    /// Create a screenshot from raw **RGBA8** pixel data.
    ///
    /// The data must be exactly `width * height * 4` bytes.
    pub fn from_rgba(width: u32, height: u32, data: Vec<u8>) -> (s: Screenshot)
        requires
            data@.len() == width * height * 4,
        ensures
            s.spec_width() == width,
            s.spec_height() == height,
            s.spec_data() == data@,
    {
        Screenshot { width, height, data }
    }

    /// Create a screenshot from raw **RGB8** pixel data, promoting to RGBA8
    /// with full opacity (`alpha = 255`).
    ///
    /// The data must be exactly `width * height * 3` bytes.
    pub fn from_rgb(width: u32, height: u32, data: &[u8]) -> (s: Screenshot)
        requires
            data@.len() == width * height * 3,
            width * height * 4 <= usize::MAX,
        ensures
            s.spec_width() == width,
            s.spec_height() == height,
            s.spec_data() == rgba_from_rgb(data@),
    {
        let n: usize = data.len() / 3;
        assert(n == width * height);
        let mut rgba: Vec<u8> = Vec::with_capacity(n * 4);
        let mut k: usize = 0;
        while k < n
            invariant
                n == data@.len() / 3,
                n * 3 == data@.len(),
                n * 4 <= usize::MAX,
                k <= n,
                rgba@.len() == 4 * k,
                forall|i: int| 0 <= i < 4 * k ==> rgba@[i] == rgba_from_rgb(data@)[i],
            decreases n - k,
        {
            let base: usize = 3 * k;
            rgba.push(data[base]);
            rgba.push(data[base + 1]);
            rgba.push(data[base + 2]);
            rgba.push(255u8);
            k = k + 1;
        }
        assert(rgba@ =~= rgba_from_rgb(data@));
        Screenshot { width, height, data: rgba }
    }

    /// Width of the screenshot in pixels.
    pub fn width(&self) -> (w: u32)
        ensures
            w == self.spec_width(),
    {
        self.width
    }

    /// Height of the screenshot in pixels.
    pub fn height(&self) -> (h: u32)
        ensures
            h == self.spec_height(),
    {
        self.height
    }

    /// Raw RGBA8 pixel data (row-major, 4 bytes per pixel).
    pub fn data(&self) -> (d: &[u8])
        ensures
            d@ == self.spec_data(),
            d@.len() == self.spec_width() * self.spec_height() * 4,
    {
        proof {
            use_type_invariant(self);
        }
        self.data.as_slice()
    }

    /// Consume the screenshot and return the underlying RGBA8 pixel buffer.
    pub fn into_data(self) -> (d: Vec<u8>)
        ensures
            d@ == self.spec_data(),
            d@.len() == self.spec_width() * self.spec_height() * 4,
    {
        proof {
            use_type_invariant(&self);
        }
        self.data
    }

    /// Encode the screenshot as a **PNG** image.
    ///
    /// A zero width or height is refused by the PNG encoder; any other
    /// screenshot is encoded, and decoding the file gives it back whenever
    /// a row fits the decoder's default limit (up to 16,777,216 pixels wide).
    pub fn encode_png(&self) -> (r: Result<Vec<u8>, EncodeError>)
        ensures
            png_outcome(self.spec_width(), self.spec_height(), self.spec_data(), r),
            r is Ok <==> (self.spec_width() != 0 && self.spec_height() != 0),
    {
        proof {
            use_type_invariant(self);
        }
        match png_encode_rgba8(self.width, self.height, self.data.as_slice()) {
            Ok(bytes) => Ok(bytes),
            Err(m) => Err(EncodeError::Png(m)),
        }
    }

    /// Encode the screenshot as a **PPM** (Portable Pixmap, P6 binary) image.
    ///
    /// The alpha channel is discarded; only RGB values are written.
    pub fn encode_ppm(&self) -> (bytes: Vec<u8>)
        ensures
            bytes@ == ppm_file(self.spec_width(), self.spec_height(), self.spec_data()),
    {
        proof {
            use_type_invariant(self);
        }
        let mut buf: Vec<u8> = Vec::new();
        push_pnm_header(&mut buf, 54u8, self.width, self.height);
        let ghost header = buf@;
        let len: usize = self.data.len();
        let n: usize = len / 4;
        let mut k: usize = 0;
        while k < n
            invariant
                n == self.data@.len() / 4,
                n * 4 == self.data@.len(),
                n * 4 <= usize::MAX,
                k <= n,
                buf@.len() == header.len() + 3 * k,
                buf@.take(header.len() as int) == header,
                forall|i: int|
                    0 <= i < 3 * k ==> buf@[header.len() + i] == rgb_of_rgba(self.data@)[i],
            decreases n - k,
        {
            let base: usize = 4 * k;
            buf.push(self.data[base]);
            buf.push(self.data[base + 1]);
            buf.push(self.data[base + 2]);
            k = k + 1;
            assert(buf@.take(header.len() as int) =~= header);
        }
        assert(buf@ =~= header + rgb_of_rgba(self.data@));
        buf
    }

    /// Encode the screenshot as a **PGM** (Portable Graymap, P5 binary) image.
    ///
    /// Each pixel is converted to grayscale using the ITU-R BT.601 luminance
    /// coefficients: `Y = 0.299·R + 0.587·G + 0.114·B`.
    pub fn encode_pgm(&self) -> (bytes: Vec<u8>)
        ensures
            bytes@ == pgm_file(self.spec_width(), self.spec_height(), self.spec_data()),
    {
        proof {
            use_type_invariant(self);
        }
        let mut buf: Vec<u8> = Vec::new();
        push_pnm_header(&mut buf, 53u8, self.width, self.height);
        let ghost header = buf@;
        let len: usize = self.data.len();
        let n: usize = len / 4;
        let mut k: usize = 0;
        while k < n
            invariant
                n == self.data@.len() / 4,
                n * 4 == self.data@.len(),
                n * 4 <= usize::MAX,
                k <= n,
                buf@.len() == header.len() + k,
                buf@.take(header.len() as int) == header,
                forall|i: int| 0 <= i < k ==> buf@[header.len() + i] == gray_of_rgba(self.data@)[i],
            decreases n - k,
        {
            let base: usize = 4 * k;
            let y = gray_of_pixel(self.data[base], self.data[base + 1], self.data[base + 2]);
            buf.push(y);
            k = k + 1;
            assert(buf@.take(header.len() as int) =~= header);
        }
        assert(buf@ =~= header + gray_of_rgba(self.data@));
        buf
    }

    /// Encode the screenshot in the given [`ImageFormat`].
    pub fn encode(&self, format: ImageFormat) -> (r: Result<Vec<u8>, EncodeError>)
        ensures
            format == ImageFormat::Ppm ==> r == Ok::<Vec<u8>, EncodeError>(r->Ok_0) && r->Ok_0@
                == ppm_file(self.spec_width(), self.spec_height(), self.spec_data()),
            format == ImageFormat::Pgm ==> r is Ok && r->Ok_0@ == pgm_file(
                self.spec_width(),
                self.spec_height(),
                self.spec_data(),
            ),
            format == ImageFormat::Png ==> png_outcome(
                self.spec_width(),
                self.spec_height(),
                self.spec_data(),
                r,
            ),
            format == ImageFormat::Png ==> (r is Ok <==> (self.spec_width() != 0
                && self.spec_height() != 0)),
            r is Err ==> format == ImageFormat::Png && (self.spec_width() == 0
                || self.spec_height() == 0),
    {
        match format {
            ImageFormat::Png => self.encode_png(),
            ImageFormat::Ppm => Ok(self.encode_ppm()),
            ImageFormat::Pgm => Ok(self.encode_pgm()),
        }
    }
}

/// The BT.601 luma of one pixel, computed in integers.
fn gray_of_pixel(r: u8, g: u8, b: u8) -> (y: u8)
    ensures
        y == luma(r, g, b),
{
    let sum: u32 = 299 * (r as u32) + 587 * (g as u32) + 114 * (b as u32);
    (sum / 1000) as u8
}

/// Append `P<magic>\n<w> <h>\n255\n` to `buf`.
fn push_pnm_header(buf: &mut Vec<u8>, magic: u8, width: u32, height: u32)
    requires
        magic == 53 || magic == 54,
    ensures
        final(buf)@ == old(buf)@ + pnm_header(magic as char, width, height),
{
    buf.push(80u8);
    buf.push(magic);
    buf.push(10u8);
    push_decimal_bytes(buf, width as u64);
    buf.push(32u8);
    push_decimal_bytes(buf, height as u64);
    buf.push(10u8);
    buf.push(50u8);
    buf.push(53u8);
    buf.push(53u8);
    buf.push(10u8);
    proof {
        let ghost a = seq!['P', magic as char, '\n'];
        let ghost dw = decimal(width as nat);
        let ghost dh = decimal(height as nat);
        let ghost t = seq!['\n', '2', '5', '5', '\n'];
        lemma_ascii_bytes_add(a + dw + seq![' '] + dh, t);
        lemma_ascii_bytes_add(a + dw + seq![' '], dh);
        lemma_ascii_bytes_add(a + dw, seq![' ']);
        lemma_ascii_bytes_add(a, dw);
        assert(ascii_bytes(a) =~= seq![80u8, magic, 10u8]);
        assert(ascii_bytes(seq![' ']) =~= seq![32u8]);
        assert(ascii_bytes(t) =~= seq![10u8, 50u8, 53u8, 53u8, 10u8]);
    }
    assert(final(buf)@ =~= old(buf)@ + pnm_header(magic as char, width, height));
}

} // verus!

verus! {

/// A gray pixel keeps its level: the BT.601 weights sum to one, so
/// `luma(v, v, v) == v` (pure white is 255, pure black 0).
pub proof fn lemma_luma_of_gray(v: u8)
    ensures
        luma(v, v, v) == v,
{
    assert(299 * v + 587 * v + 114 * v == 1000 * v);
    assert((1000 * (v as int)) / 1000 == v as int) by (nonlinear_arith);
}

/// Luma never exceeds the brightest channel of the pixel.
pub proof fn lemma_luma_bounded(r: u8, g: u8, b: u8)
    ensures
        luma(r, g, b) <= if r >= g && r >= b {
            r
        } else if g >= b {
            g
        } else {
            b
        },
{
    let m: int = if r >= g && r >= b {
        r as int
    } else if g >= b {
        g as int
    } else {
        b as int
    };
    assert(299 * r + 587 * g + 114 * b <= 1000 * m);
    assert((299 * r + 587 * g + 114 * b) / 1000 <= m) by (nonlinear_arith)
        requires
            299 * r + 587 * g + 114 * b <= 1000 * m,
            0 <= 299 * r + 587 * g + 114 * b,
    ;
}

/// An error that occurred while saving a screenshot to disk.
#[derive(Debug)]
pub enum SaveError {
    /// An I/O error occurred while creating or writing the file, with its
    /// description.
    Io(String),
    /// An encoding error occurred before the data could be written.
    Encode(EncodeError),
}

impl SaveError {
    /// The human-readable description of the error.
    pub fn to_message(&self) -> (s: String)
        ensures
            match self {
                SaveError::Io(m) => s@ == "I/O error: "@ + m@,
                SaveError::Encode(EncodeError::Png(m)) => s@ == "Encoding error: "@
                    + "PNG encoding error: "@ + m@,
            },
    {
        match self {
            SaveError::Io(m) => {
                let mut s = String::from_str("I/O error: ");
                s.append(m.as_str());
                s
            },
            SaveError::Encode(e) => {
                let inner = e.to_message();
                let mut s = String::from_str("Encoding error: ");
                s.append(inner.as_str());
                s
            },
        }
    }
}

} // verus!

verus! {

/// Dropping alpha undoes promoting RGB to opaque RGBA: the RGB bytes of
/// `rgba_from_rgb(rgb)` are `rgb` again.
pub proof fn lemma_rgb_round_trip(rgb: Seq<u8>)
    requires
        rgb.len() % 3 == 0,
    ensures
        rgb_of_rgba(rgba_from_rgb(rgb)) == rgb,
{
    let n = rgb.len() / 3;
    let rgba = rgba_from_rgb(rgb);
    assert(rgba.len() == n * 4);
    assert(rgba.len() / 4 == n);
    let back = rgb_of_rgba(rgba);
    assert(back.len() == rgb.len());
    assert forall|i: int| 0 <= i < rgb.len() implies back[i] == rgb[i] by {
        let j = (i / 3) * 4 + i % 3;
        assert(j % 4 == i % 3 && j / 4 == i / 3);
        assert(0 <= j < rgba.len());
        assert((j / 4) * 3 + j % 4 == i);
    }
    assert(back =~= rgb);
}

/// A P6 file of `w × h` pixels is its header and three bytes per pixel; a
/// P5 file is its header and one byte per pixel.
pub proof fn lemma_pnm_sizes(width: u32, height: u32, rgba: Seq<u8>)
    requires
        rgba.len() == width * height * 4,
    ensures
        ppm_file(width, height, rgba).len() == pnm_header('6', width, height).len() + width * height
            * 3,
        pgm_file(width, height, rgba).len() == pnm_header('5', width, height).len() + width
            * height,
{
    assert(rgba.len() / 4 == width * height) by (nonlinear_arith)
        requires
            rgba.len() == width * height * 4,
    ;
}

} // verus!

verus! {

/// A side of an image scaled by `max / longest`, rounded down, and kept at
/// one pixel at least.
pub open spec fn scaled_side(side: u32, max: u32, longest: u32) -> u32 {
    let q = (side as int * max as int) / (longest as int);
    if q < 1 {
        1
    } else {
        q as u32
    }
}

/// Whether downscaling to `max` leaves a `w × h` image as it is: `max` is
/// 0 (full size), the image is empty, or both sides already fit.
pub open spec fn fits_within(w: u32, h: u32, max: u32) -> bool {
    max == 0 || w == 0 || h == 0 || (w <= max && h <= max)
}

/// The size of a `w × h` image downscaled so that its longest side is
/// `max`, the other side in proportion (rounded down, one pixel at least);
/// the size itself when the image [`fits_within`] `max`.
pub open spec fn downscaled_size(w: u32, h: u32, max: u32) -> (u32, u32) {
    if fits_within(w, h, max) {
        (w, h)
    } else {
        let longest = if w >= h {
            w
        } else {
            h
        };
        (scaled_side(w, max, longest), scaled_side(h, max, longest))
    }
}

/// The source byte that byte `i` of a `dw × dh` nearest-neighbour
/// resampling of a `w × h` RGBA8 image takes: pixel `(x, y)` takes source
/// pixel `(x·w/dw, y·h/dh)`, both rounded down.
pub open spec fn resampled_index(w: u32, h: u32, dw: u32, dh: u32, i: int) -> int {
    let p = i / 4;
    let x = p % (dw as int);
    let y = p / (dw as int);
    ((y * h as int) / (dh as int) * (w as int) + (x * w as int) / (dw as int)) * 4 + i % 4
}

/// The RGBA8 data of a `w × h` image resampled to `dw × dh`.
pub open spec fn resampled(data: Seq<u8>, w: u32, h: u32, dw: u32, dh: u32) -> Seq<u8> {
    Seq::new((dw * dh * 4) as nat, |i: int| data[resampled_index(w, h, dw, dh, i)])
}

/// The product of two 32-bit values fits in 64 bits.
proof fn lemma_u32_product(a: int, b: int)
    requires
        0 <= a <= u32::MAX,
        0 <= b <= u32::MAX,
    ensures
        0 <= a * b <= u64::MAX,
{
    assert(0 <= a * b <= u32::MAX * u32::MAX) by (nonlinear_arith)
        requires
            0 <= a <= u32::MAX,
            0 <= b <= u32::MAX,
    ;
}

/// One side scaled by `max / longest` (see [`scaled_side`]).
fn scale_side(side: u32, max: u32, longest: u32) -> (r: u32)
    requires
        side <= longest,
        max < longest,
    ensures
        r == scaled_side(side, max, longest),
        1 <= r,
        side >= 1 ==> r <= side,
        max >= 1 ==> r <= max,
        side == longest && max >= 1 ==> r == max,
{
    assert((side as int * max as int) / (longest as int) <= max as int) by (nonlinear_arith)
        requires
            side <= longest,
            0 < longest,
            0 <= side,
            0 <= max,
    ;
    assert(side == longest ==> (side as int * max as int) / (longest as int) == max as int)
        by (nonlinear_arith)
        requires
            0 < longest,
    ;
    assert((side as int * max as int) / (longest as int) <= side as int) by (nonlinear_arith)
        requires
            side <= longest,
            max < longest,
            0 <= side,
            0 <= max,
    ;
    proof {
        lemma_u32_product(side as int, max as int);
    }
    let q: u64 = (side as u64) * (max as u64) / (longest as u64);
    if q < 1 {
        1
    } else {
        q as u32
    }
}

/// `(n · a) / d < a` when `n < d`.
proof fn lemma_scaled_below(n: int, a: int, d: int)
    requires
        0 <= n < d,
        0 < a,
    ensures
        0 <= (n * a) / d < a,
{
    assert(0 <= n * a < d * a) by (nonlinear_arith)
        requires
            0 <= n < d,
            0 < a,
    ;
    assert(0 <= (n * a) / d < a) by (nonlinear_arith)
        requires
            0 <= n * a < d * a,
            0 < d,
    ;
}

/// Whether `r` is `side` scaled by `max / longest` in proportion: `r/side`
/// is `max/longest` rounded down, or one pixel where that rounds to zero.
pub open spec fn in_proportion(r: int, side: int, max: int, longest: int) -> bool {
    ||| r * longest <= side * max < (r + 1) * longest
    ||| r == 1 && side * max < longest
}

/// A scaled side is the side scaled in proportion (see [`in_proportion`]).
pub proof fn lemma_scaled_side_in_proportion(side: u32, max: u32, longest: u32)
    requires
        side <= longest,
        max < longest,
    ensures
        in_proportion(scaled_side(side, max, longest) as int, side as int, max as int, longest as int),
{
    let n = side as int * max as int;
    let q = n / (longest as int);
    vstd::arithmetic::div_mod::lemma_fundamental_div_mod(n, longest as int);
    assert(q * longest <= n < (q + 1) * longest) by (nonlinear_arith)
        requires
            n == longest * q + n % (longest as int),
            0 <= n % (longest as int) < longest,
    ;
    if q >= 1 {
        assert(q <= side) by (nonlinear_arith)
            requires
                q * longest <= n,
                longest >= 1,
                n == side * max,
                max < longest,
                0 <= side,
                0 <= max,
        ;
    }
}

/// Byte `c` of pixel `(x, y)` of RGBA8 data whose rows are `width` pixels.
pub open spec fn pixel_byte(data: Seq<u8>, width: int, x: int, y: int, c: int) -> u8 {
    data[(y * width + x) * 4 + c]
}

/// Resampling reads both axes in proportion: pixel `(x, y)` of a `dw × dh`
/// resampling of a `w × h` image is the source pixel `(sx, sy)` that covers
/// the same place, `sx·dw ≤ x·w < (sx+1)·dw` and `sy·dh ≤ y·h < (sy+1)·dh`.
/// So the last output row comes from the bottom rows of the source, the
/// last output column from its right-hand columns.
pub proof fn lemma_resampled_in_proportion(
    data: Seq<u8>,
    w: u32,
    h: u32,
    dw: u32,
    dh: u32,
    x: int,
    y: int,
    sx: int,
    sy: int,
    c: int,
)
    requires
        1 <= dw,
        1 <= dh,
        0 <= x < dw,
        0 <= y < dh,
        0 <= c < 4,
        sx * dw <= x * w < (sx + 1) * dw,
        sy * dh <= y * h < (sy + 1) * dh,
    ensures
        pixel_byte(resampled(data, w, h, dw, dh), dw as int, x, y, c) == pixel_byte(
            data,
            w as int,
            sx,
            sy,
            c,
        ),
{
    let p = y * dw + x;
    let i = p * 4 + c;
    assert(0 <= p < dw * dh) by (nonlinear_arith)
        requires
            0 <= x < dw,
            0 <= y < dh,
            p == y * dw + x,
    ;
    vstd::arithmetic::div_mod::lemma_fundamental_div_mod_converse(i, 4, p, c);
    vstd::arithmetic::div_mod::lemma_fundamental_div_mod_converse(p, dw as int, y, x);
    assert((sx + 1) * dw == sx * dw + dw && (sy + 1) * dh == sy * dh + dh) by (nonlinear_arith);
    vstd::arithmetic::div_mod::lemma_fundamental_div_mod_converse(
        x * w,
        dw as int,
        sx,
        x * w - sx * dw,
    );
    vstd::arithmetic::div_mod::lemma_fundamental_div_mod_converse(
        y * h,
        dh as int,
        sy,
        y * h - sy * dh,
    );
    assert(sx * dw == dw * sx && sy * dh == dh * sy) by (nonlinear_arith);
    assert(i < dw * dh * 4);
    assert(resampled_index(w, h, dw, dh, i) == (sy * w + sx) * 4 + c);
}

impl Screenshot {
    /// A copy downscaled so that its longest side is at most `max` pixels,
    /// aspect kept (see [`downscaled_size`]), by nearest-neighbour
    /// sampling; `max == 0` keeps the full size.
    pub fn downscale_to(&self, max: u32) -> (s: Screenshot)
        ensures
            (s.spec_width(), s.spec_height()) == downscaled_size(
                self.spec_width(),
                self.spec_height(),
                max,
            ),
            fits_within(self.spec_width(), self.spec_height(), max) ==> s.spec_data()
                == self.spec_data(),
            max != 0 && self.spec_width() != 0 && self.spec_height() != 0 ==> s.spec_width() <= max
                && s.spec_height() <= max,
            !fits_within(self.spec_width(), self.spec_height(), max) ==> if self.spec_width()
                >= self.spec_height() {
                s.spec_width() == max
            } else {
                s.spec_height() == max
            },
            !fits_within(self.spec_width(), self.spec_height(), max) ==> s.spec_data() == resampled(
                self.spec_data(),
                self.spec_width(),
                self.spec_height(),
                s.spec_width(),
                s.spec_height(),
            ),
            !fits_within(self.spec_width(), self.spec_height(), max) ==> ({
                let longest = if self.spec_width() >= self.spec_height() {
                    self.spec_width()
                } else {
                    self.spec_height()
                };
                &&& in_proportion(
                    s.spec_width() as int,
                    self.spec_width() as int,
                    max as int,
                    longest as int,
                )
                &&& in_proportion(
                    s.spec_height() as int,
                    self.spec_height() as int,
                    max as int,
                    longest as int,
                )
            }),
            !fits_within(self.spec_width(), self.spec_height(), max) ==> forall|
                x: int,
                y: int,
                sx: int,
                sy: int,
                c: int,
            |
                0 <= x < s.spec_width() && 0 <= y < s.spec_height() && 0 <= c < 4 && sx
                    * s.spec_width() <= x * self.spec_width() < (sx + 1) * s.spec_width() && sy
                    * s.spec_height() <= y * self.spec_height() < (sy + 1) * s.spec_height()
                    ==> #[trigger] pixel_byte(s.spec_data(), s.spec_width() as int, x, y, c)
                    == #[trigger] pixel_byte(self.spec_data(), self.spec_width() as int, sx, sy, c),
    {
        proof {
            use_type_invariant(self);
        }
        let w = self.width;
        let h = self.height;
        if max == 0 || w == 0 || h == 0 || (w <= max && h <= max) {
            return self.clone();
        }
        let longest: u32 = if w >= h {
            w
        } else {
            h
        };
        let dw = scale_side(w, max, longest);
        let dh = scale_side(h, max, longest);
        proof {
            lemma_scaled_side_in_proportion(w, max, longest);
            lemma_scaled_side_in_proportion(h, max, longest);
        }
        let ghost data = self.data@;
        let len: usize = self.data.len();
        assert(dw as int * dh as int <= w as int * h as int) by (nonlinear_arith)
            requires
                1 <= dw <= w,
                1 <= dh <= h,
        ;
        let npix: usize = (dw as usize) * (dh as usize);
        let mut out: Vec<u8> = Vec::new();
        let mut p: usize = 0;
        while p < npix
            invariant
                data == self.data@,
                len == data.len(),
                data.len() == w * h * 4,
                1 <= dw <= w,
                1 <= dh <= h,
                npix == dw * dh,
                p <= npix,
                out@.len() == p * 4,
                forall|j: int| 0 <= j < p * 4 ==> out@[j] == data[resampled_index(w, h, dw, dh, j)],
            decreases npix - p,
        {
            let x: usize = p % (dw as usize);
            let y: usize = p / (dw as usize);
            assert(y < dh) by (nonlinear_arith)
                requires
                    p < dw * dh,
                    y == (p as int) / (dw as int),
                    dw > 0,
            ;
            proof {
                lemma_scaled_below(y as int, h as int, dh as int);
                lemma_scaled_below(x as int, w as int, dw as int);
                lemma_u32_product(y as int, h as int);
                lemma_u32_product(x as int, w as int);
            }
            let sy: u64 = (y as u64) * (h as u64) / (dh as u64);
            let sx: u64 = (x as u64) * (w as u64) / (dw as u64);
            assert(sy * w + sx < w * h) by (nonlinear_arith)
                requires
                    sy < h,
                    sx < w,
            ;
            let base: usize = ((sy * (w as u64) + sx) * 4) as usize;
            let ghost before = out@;
            out.push(self.data[base]);
            out.push(self.data[base + 1]);
            out.push(self.data[base + 2]);
            out.push(self.data[base + 3]);
            proof {
                assert forall|j: int| 0 <= j < (p + 1) * 4 implies out@[j] == data[resampled_index(
                    w,
                    h,
                    dw,
                    dh,
                    j,
                )] by {
                    if j >= p * 4 {
                        let c = j - p * 4;
                        vstd::arithmetic::div_mod::lemma_fundamental_div_mod_converse(
                            j,
                            4,
                            p as int,
                            c,
                        );
                        assert(resampled_index(w, h, dw, dh, j) == base + c);
                    } else {
                        assert(out@[j] == before[j]);
                    }
                }
            }
            p = p + 1;
        }
        assert(out@ =~= resampled(data, w, h, dw, dh));
        assert forall|x: int, y: int, sx: int, sy: int, c: int|
            0 <= x < dw && 0 <= y < dh && 0 <= c < 4 && sx * dw <= x * w < (sx + 1) * dw && sy * dh
                <= y * h < (sy + 1) * dh implies #[trigger] pixel_byte(out@, dw as int, x, y, c)
            == #[trigger] pixel_byte(data, w as int, sx, sy, c) by {
            lemma_resampled_in_proportion(data, w, h, dw, dh, x, y, sx, sy, c);
        }
        Screenshot { width: dw, height: dh, data: out }
    }
}

} // verus!
